use vstd::prelude::*;

use crate::tui::ui_element::AutosizeUIElement;

verus! {

/// An element that shows nothing, takes no space and never takes the focus.
pub struct Empty;

impl AutosizeUIElement for Empty {
    open spec fn asked_size(&self, width: u16, height: u16) -> (u16, u16) {
        (0u16, 0u16)
    }

    /// The size it asks for: none.
    fn begin_resize(&mut self, width: u16, height: u16) -> (r: (u16, u16))
        ensures
            r == (0u16, 0u16),
    {
        (0, 0)
    }
}

impl Empty {
    /// It never accepts the focus.
    pub fn receive_focus(&mut self, focus_position: (u16, u16)) -> (r: bool)
        ensures
            !r,
    {
        false
    }
}

} // verus!
