//! The popup that asks whether to close the client: YES shuts it down, NO closes the popup.

use vstd::prelude::*;

use crate::tui::elements::dual_buttons::DualButtonsHandler;
use crate::tui::popups::yes_no_popup::{request_sent, YesNoSimpleController};

verus! {

/// The buttons of the popup: its controller, and whether the client was asked to shut down.
#[derive(Debug, Clone, Copy, PartialEq, Eq, Structural)]
pub struct ConfirmCloseHandler {
    pub controller: YesNoSimpleController,
    pub shutdown_requested: bool,
}

impl DualButtonsHandler for ConfirmCloseHandler {
    /// YES: the buttons are hidden, the popup cannot be closed, and the client is asked to
    /// shut down.
    fn on_left(&mut self)
        ensures
            final(self).controller == request_sent(old(self).controller),
            final(self).shutdown_requested,
    {
        self.controller.begin_request();
        self.shutdown_requested = true;
    }

    /// NO: the popup closes.
    fn on_right(&mut self)
        ensures
            final(self).controller == (YesNoSimpleController { close_requested: true, ..old(self).controller }),
            final(self).shutdown_requested == old(self).shutdown_requested,
    {
        self.controller.close_requested = true;
    }
}

} // verus!
