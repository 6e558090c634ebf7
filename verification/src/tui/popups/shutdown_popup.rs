//! The popup that asks whether to shut the server down: YES sends the shutdown request, NO
//! closes the popup.

use vstd::prelude::*;

use crate::tui::elements::dual_buttons::DualButtonsHandler;
use crate::tui::popups::yes_no_popup::{request_sent, YesNoSimpleController};

verus! {

/// The buttons of the popup: its controller, and whether the shutdown request is to be sent.
#[derive(Debug, Clone, Copy, PartialEq, Eq, Structural)]
pub struct ShutdownHandler {
    pub controller: YesNoSimpleController,
    pub shutdown_requested: bool,
}

impl DualButtonsHandler for ShutdownHandler {
    /// YES: the shutdown request is to be sent; the buttons are hidden and the popup cannot be
    /// closed.
    fn on_left(&mut self)
        ensures
            final(self).controller == request_sent(old(self).controller),
            final(self).shutdown_requested,
    {
        self.shutdown_requested = true;
        self.controller.begin_request();
    }

    /// NO: the popup closes.
    fn on_right(&mut self)
        ensures
            final(self).controller == (YesNoSimpleController { close_requested: true, ..old(self).controller }),
            final(self).shutdown_requested == old(self).shutdown_requested,
    {
        self.controller.close_requested = true;
    }
}

} // verus!
