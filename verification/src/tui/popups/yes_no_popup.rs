//! What the controller of a popup with YES and NO buttons offers, and the plain controller of
//! such a popup.

use vstd::prelude::*;

use crate::tui::popups::popup_base::PopupBaseController;

verus! {

/// The controller of a popup with YES and NO buttons, which can be hidden (while a request is
/// under way, a line of text takes their place).
pub trait YesNoPopupController: PopupBaseController {
    /// Sets whether the buttons are shown.
    fn set_showing_buttons(&mut self, showing: bool);

    /// Whether the buttons are shown.
    fn get_showing_buttons(&self) -> bool;
}

/// The plain controller of a popup with YES and NO buttons: whether the buttons are shown,
/// whether the popup can be closed, and whether a redraw or the closing of the popup was asked
/// for.
#[derive(Debug, Clone, Copy, PartialEq, Eq, Structural)]
pub struct YesNoSimpleController {
    pub showing_buttons: bool,
    pub closable: bool,
    pub redraw_requested: bool,
    pub close_requested: bool,
}

/// The controller once a request is sent: the buttons are hidden and the popup cannot be
/// closed; a change asks for a redraw.
pub open spec fn request_sent(c: YesNoSimpleController) -> YesNoSimpleController {
    YesNoSimpleController {
        showing_buttons: false,
        closable: false,
        redraw_requested: c.redraw_requested || c.showing_buttons || c.closable,
        ..c
    }
}

/// The controller once a request was answered with an error: the buttons are back and the
/// popup can be closed; a change asks for a redraw.
pub open spec fn request_failed(c: YesNoSimpleController) -> YesNoSimpleController {
    YesNoSimpleController {
        showing_buttons: true,
        closable: true,
        redraw_requested: c.redraw_requested || !c.showing_buttons || !c.closable,
        ..c
    }
}

impl YesNoSimpleController {
    /// With its buttons, closable (or not, as asked), and nothing asked for.
    pub fn new(closable: bool) -> (c: Self)
        ensures
            c == (YesNoSimpleController {
                showing_buttons: true,
                closable,
                redraw_requested: false,
                close_requested: false,
            }),
    {
        YesNoSimpleController { showing_buttons: true, closable, redraw_requested: false, close_requested: false }
    }

    /// A request is sent: the buttons are hidden and the popup cannot be closed.
    pub fn begin_request(&mut self)
        ensures
            *final(self) == request_sent(*old(self)),
    {
        self.set_showing_buttons(false);
        self.set_closable(false);
    }

    /// A request was answered with an error: the buttons are back and the popup can be closed.
    pub fn request_refused(&mut self)
        ensures
            *final(self) == request_failed(*old(self)),
    {
        self.set_closable(true);
        self.set_showing_buttons(true);
    }
}

impl PopupBaseController for YesNoSimpleController {
    fn redraw_notify(&mut self)
        ensures
            *final(self) == (YesNoSimpleController { redraw_requested: true, ..*old(self) }),
    {
        self.redraw_requested = true;
    }

    fn close_popup(&mut self)
        ensures
            *final(self) == (YesNoSimpleController { close_requested: true, ..*old(self) }),
    {
        self.close_requested = true;
    }

    /// A change asks for a redraw.
    fn set_closable(&mut self, closable: bool)
        ensures
            *final(self) == (YesNoSimpleController {
                closable,
                redraw_requested: old(self).redraw_requested || old(self).closable != closable,
                ..*old(self)
            }),
    {
        if self.closable != closable {
            self.closable = closable;
            self.redraw_requested = true;
        }
    }

    fn get_closable(&self) -> (r: bool)
        ensures
            r == self.closable,
    {
        self.closable
    }
}

impl YesNoPopupController for YesNoSimpleController {
    /// A change asks for a redraw.
    fn set_showing_buttons(&mut self, showing: bool)
        ensures
            *final(self) == (YesNoSimpleController {
                showing_buttons: showing,
                redraw_requested: old(self).redraw_requested || old(self).showing_buttons != showing,
                ..*old(self)
            }),
    {
        if self.showing_buttons != showing {
            self.showing_buttons = showing;
            self.redraw_requested = true;
        }
    }

    fn get_showing_buttons(&self) -> (r: bool)
        ensures
            r == self.showing_buttons,
    {
        self.showing_buttons
    }
}

} // verus!
