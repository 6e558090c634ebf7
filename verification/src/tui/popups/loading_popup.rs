//! What the controller of a popup that loads its content first offers.

use vstd::prelude::*;

use crate::tui::popups::popup_base::PopupBaseController;
use crate::tui::text_wrapper::StaticString;

verus! {

/// The controller of a popup that shows a loading message until its content is ready.
pub trait LoadingPopupController: PopupBaseController {
    /// Sets whether the loading message is shown in place of the content.
    fn set_is_loading(&mut self, loading: bool);

    /// Whether the loading message is shown in place of the content.
    fn get_is_loading(&self) -> bool;

    /// Replaces the loading message, the next time the popup is laid out.
    fn set_new_loading_text(&mut self, text: StaticString);

    /// The loading message waiting to replace the current one, if any; taking it clears it.
    fn get_new_loading_text(&mut self) -> Option<StaticString>;
}

} // verus!
