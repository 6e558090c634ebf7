//! The decisions of the element that holds on to the focus for an inner element: when the
//! inner element lets the focus go away, the cell keeps it, and an arrow or TAB offers it back.

use vstd::prelude::*;

use crate::tui::elements::split::Area;
use crate::tui::ui_element::{HandleEventStatus, KeyCode, KeyInput, PassFocusDirection};

verus! {

/// What a focus cell does once its inner element handled an event (focused only if the cell
/// is focused and the inner element holds the focus).
#[derive(Debug, Clone, Copy, PartialEq, Eq)]
pub enum FocusCellStep {
    /// Answer with this status.
    Answer(HandleEventStatus),
    /// The inner element let the focus go away: it loses it, the cell keeps it, and the event
    /// is handled.
    KeepFocus,
    /// Offer the focus back to the inner element from this position: the event is handled if
    /// it takes it, unhandled otherwise.
    OfferInner((u16, u16)),
}

/// What a focus cell does once its inner element handled a key press: a status other than
/// unhandled is the answer, but for the focus let go away, which the cell keeps; an unhandled
/// arrow or TAB offers the focus back to the inner element, from the right edge of the cell for
/// LEFT and from its left edge otherwise; anything else is unhandled.
pub open spec fn focus_cell_step_spec(inner_status: HandleEventStatus, key: KeyInput, area: Area) -> FocusCellStep {
    match inner_status {
        HandleEventStatus::PassFocus(_, PassFocusDirection::Away) => FocusCellStep::KeepFocus,
        HandleEventStatus::Unhandled => if key.is_release {
            FocusCellStep::Answer(HandleEventStatus::Unhandled)
        } else {
            match key.code {
                KeyCode::Left => FocusCellStep::OfferInner(((area.x + area.width) as u16, 0u16)),
                KeyCode::Right | KeyCode::Up | KeyCode::Down | KeyCode::Tab => FocusCellStep::OfferInner((area.x, 0u16)),
                _ => FocusCellStep::Answer(HandleEventStatus::Unhandled),
            }
        },
        _ => FocusCellStep::Answer(inner_status),
    }
}

/// What a focus cell does once its inner element handled a key press.
pub fn focus_cell_step(inner_status: HandleEventStatus, key: KeyInput, area: Area) -> (r: FocusCellStep)
    requires
        area.x + area.width <= u16::MAX,
    ensures
        r == focus_cell_step_spec(inner_status, key, area),
{
    match inner_status {
        HandleEventStatus::PassFocus(_, PassFocusDirection::Away) => FocusCellStep::KeepFocus,
        HandleEventStatus::Unhandled => {
            if key.is_release {
                FocusCellStep::Answer(HandleEventStatus::Unhandled)
            } else {
                match key.code {
                    KeyCode::Left => FocusCellStep::OfferInner((area.x + area.width, 0)),
                    KeyCode::Right | KeyCode::Up | KeyCode::Down | KeyCode::Tab => FocusCellStep::OfferInner((area.x, 0)),
                    _ => FocusCellStep::Answer(HandleEventStatus::Unhandled),
                }
            }
        },
        _ => FocusCellStep::Answer(inner_status),
    }
}

} // verus!
