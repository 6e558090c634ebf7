//! What every popup's controller offers: redrawing, closing, and whether the popup may be
//! closed by the user.

use vstd::prelude::*;

verus! {

/// The controller of a popup: asks for a redraw or for the popup to close, and says whether
/// the user may close it.
pub trait PopupBaseController {
    /// Asks for the popup to be drawn again.
    fn redraw_notify(&mut self);

    /// Asks for the popup to be closed.
    fn close_popup(&mut self);

    /// Sets whether the user may close the popup.
    fn set_closable(&mut self, closable: bool);

    /// Whether the user may close the popup.
    fn get_closable(&self) -> bool;
}

} // verus!
