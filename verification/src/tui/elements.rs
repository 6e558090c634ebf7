//! Reusable interface elements.

use vstd::prelude::*;

use crate::tui::ui_element::PassFocusDirection;

pub mod arrow_selector;
pub mod centered_button;
pub mod dual_buttons;
pub mod empty;
pub mod focus_cell;
pub mod long_list;
pub mod padded;
pub mod split;
pub mod text;
pub mod text_entry;

verus! {

/// What pressing ENTER on an element comes to.
#[derive(Debug, Clone, Copy, PartialEq, Eq, Structural)]
pub enum OnEnterResult {
    Handled,
    Unhandled,
    PassFocus(PassFocusDirection),
}

} // verus!
