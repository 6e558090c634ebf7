//! The state shared by the popups that check what was entered and then send a request: an
//! entry blinking red after a wrong entry, one request at a time, and the buttons hidden and
//! the popup unclosable while it is under way.

use vstd::prelude::*;

use crate::tui::popups::yes_no_popup::{request_failed, request_sent, YesNoSimpleController};

verus! {

/// Whether an entry is blinking red, whether a request is under way, and the buttons and
/// closing of the popup.
#[derive(Debug, Clone, Copy, PartialEq, Eq, Structural)]
pub struct RequestPopupState {
    pub base: YesNoSimpleController,
    pub is_beeping_red: bool,
    pub is_doing_request: bool,
}

/// Whether the popup ignores YES: while an entry blinks red or a request is under way.
pub open spec fn is_busy(s: RequestPopupState) -> bool {
    s.is_beeping_red || s.is_doing_request
}

/// The state once a request is sent.
pub open spec fn requesting(s: RequestPopupState) -> RequestPopupState {
    RequestPopupState { is_doing_request: true, base: request_sent(s.base), ..s }
}

/// The state once an entry starts blinking red (which asks for a redraw).
pub open spec fn beeping(s: RequestPopupState) -> RequestPopupState {
    RequestPopupState {
        is_beeping_red: true,
        base: YesNoSimpleController { redraw_requested: true, ..s.base },
        ..s
    }
}

/// The state once a request was answered with an error.
pub open spec fn refused(s: RequestPopupState) -> RequestPopupState {
    RequestPopupState { is_doing_request: false, base: request_failed(s.base), ..s }
}

/// The state once a request went through: the popup is to close.
pub open spec fn done(s: RequestPopupState) -> RequestPopupState {
    RequestPopupState { base: YesNoSimpleController { close_requested: true, ..s.base }, ..s }
}

impl RequestPopupState {
    /// Idle, with its buttons, closable.
    pub fn new() -> (s: Self)
        ensures
            s == (RequestPopupState {
                base: YesNoSimpleController {
                    showing_buttons: true,
                    closable: true,
                    redraw_requested: false,
                    close_requested: false,
                },
                is_beeping_red: false,
                is_doing_request: false,
            }),
    {
        RequestPopupState { base: YesNoSimpleController::new(true), is_beeping_red: false, is_doing_request: false }
    }

    pub fn is_busy(&self) -> (r: bool)
        ensures
            r == is_busy(*self),
    {
        self.is_beeping_red || self.is_doing_request
    }

    /// A request is sent.
    pub fn perform_request(&mut self)
        ensures
            *final(self) == requesting(*old(self)),
    {
        self.is_doing_request = true;
        self.base.begin_request();
    }

    /// An entry starts blinking red.
    pub fn text_entry_beep_red(&mut self)
        ensures
            *final(self) == beeping(*old(self)),
    {
        self.is_beeping_red = true;
        self.base.redraw_requested = true;
    }

    /// The blinking ended.
    pub fn beep_finished(&mut self)
        ensures
            *final(self) == (RequestPopupState { is_beeping_red: false, ..*old(self) }),
    {
        self.is_beeping_red = false;
    }

    /// The request was answered with an error.
    pub fn request_refused(&mut self)
        ensures
            *final(self) == refused(*old(self)),
    {
        self.is_doing_request = false;
        self.base.request_refused();
    }

    /// The request went through.
    pub fn request_done(&mut self)
        ensures
            *final(self) == done(*old(self)),
    {
        self.base.close_requested = true;
    }
}

} // verus!
