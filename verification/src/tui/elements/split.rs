//! The decisions of the elements that split their area in two, side by side or one above the
//! other: where each half goes, how much space they ask for, which half a focus is offered
//! first, and what becomes of an event the focused half handled.

use vstd::prelude::*;

use crate::tui::ui_element::{HandleEventStatus, PassFocusDirection};

verus! {

/// How an area is split: into a left and a right half, or an upper and a lower one.
#[derive(Debug, Clone, Copy, PartialEq, Eq, Structural)]
pub enum SplitAxis {
    Horizontal,
    Vertical,
}

/// One of the two halves: the left or upper one, or the right or lower one.
#[derive(Debug, Clone, Copy, PartialEq, Eq, Structural)]
pub enum SplitHalf {
    First,
    Second,
}

/// An area of the terminal: its top-left corner and its size, which may be zero.
#[derive(Debug, Clone, Copy, PartialEq, Eq, Structural)]
pub struct Area {
    pub x: u16,
    pub y: u16,
    pub width: u16,
    pub height: u16,
}

/// The areas of the two halves: the first takes up to `first_size` columns (or rows), then
/// `space_between` is left empty, and the second takes what is left.
pub open spec fn split_areas_spec(axis: SplitAxis, area: Area, first_size: u16, space_between: u16) -> (Area, Area) {
    let taken = first_size + space_between;
    match axis {
        SplitAxis::Horizontal => (
            Area { width: if area.width < first_size { area.width } else { first_size }, ..area },
            Area {
                x: (area.x + taken) as u16,
                width: if area.width > taken { (area.width - taken) as u16 } else { 0 },
                ..area
            },
        ),
        SplitAxis::Vertical => (
            Area { height: if area.height < first_size { area.height } else { first_size }, ..area },
            Area {
                y: (area.y + taken) as u16,
                height: if area.height > taken { (area.height - taken) as u16 } else { 0 },
                ..area
            },
        ),
    }
}

/// The areas of the two halves of a split area.
pub fn split_areas(axis: SplitAxis, area: Area, first_size: u16, space_between: u16) -> (r: (Area, Area))
    requires
        axis == SplitAxis::Horizontal ==> area.x + first_size + space_between <= u16::MAX,
        axis == SplitAxis::Vertical ==> area.y + first_size + space_between <= u16::MAX,
    ensures
        r == split_areas_spec(axis, area, first_size, space_between),
{
    let taken: u16 = first_size + space_between;
    match axis {
        SplitAxis::Horizontal => {
            let first = Area { width: if area.width < first_size { area.width } else { first_size }, ..area };
            let second = Area {
                x: area.x + taken,
                width: if area.width > taken { area.width - taken } else { 0 },
                ..area
            };
            (first, second)
        },
        SplitAxis::Vertical => {
            let first = Area { height: if area.height < first_size { area.height } else { first_size }, ..area };
            let second = Area {
                y: area.y + taken,
                height: if area.height > taken { area.height - taken } else { 0 },
                ..area
            };
            (first, second)
        },
    }
}

/// The space the second half is offered once the first asked for `first_request`: what is
/// left of the width (or height) after it and the space between, with the other dimension
/// whole; none when nothing is left.
pub open spec fn second_offer_spec(
    axis: SplitAxis,
    width: u16,
    height: u16,
    first_request: (u16, u16),
    space_between: u16,
) -> Option<(u16, u16)> {
    match axis {
        SplitAxis::Horizontal => {
            let left = width - first_request.0 - space_between;
            if left > 0 {
                Some((left as u16, height))
            } else {
                None
            }
        },
        SplitAxis::Vertical => {
            let left = height - first_request.1 - space_between;
            if left > 0 {
                Some((width, left as u16))
            } else {
                None
            }
        },
    }
}

/// The space the second half is offered, if any.
pub fn second_offer(axis: SplitAxis, width: u16, height: u16, first_request: (u16, u16), space_between: u16) -> (r: Option<
    (u16, u16),
>)
    ensures
        r == second_offer_spec(axis, width, height, first_request, space_between),
{
    match axis {
        SplitAxis::Horizontal => {
            let after_first: u16 = if width > first_request.0 { width - first_request.0 } else { 0 };
            let left: u16 = if after_first > space_between { after_first - space_between } else { 0 };
            if left > 0 { Some((left, height)) } else { None }
        },
        SplitAxis::Vertical => {
            let after_first: u16 = if height > first_request.1 { height - first_request.1 } else { 0 };
            let left: u16 = if after_first > space_between { after_first - space_between } else { 0 };
            if left > 0 { Some((width, left)) } else { None }
        },
    }
}

/// The size a split asks for, given what each half asked (the second nothing when it was
/// offered no space): along the split, both halves and the space between them, within what is
/// available; across it, the larger of the two.
pub open spec fn split_request_spec(
    axis: SplitAxis,
    width: u16,
    height: u16,
    first_request: (u16, u16),
    second_request: (u16, u16),
    space_between: u16,
) -> (u16, u16) {
    match axis {
        SplitAxis::Horizontal => {
            let along = first_request.0 + space_between + second_request.0;
            (
                if along < width { along as u16 } else { width },
                if first_request.1 < second_request.1 { second_request.1 } else { first_request.1 },
            )
        },
        SplitAxis::Vertical => {
            let along = first_request.1 + space_between + second_request.1;
            (
                if first_request.0 < second_request.0 { second_request.0 } else { first_request.0 },
                if along < height { along as u16 } else { height },
            )
        },
    }
}

fn saturating_add(a: u16, b: u16) -> (r: u16)
    ensures
        r == (if a + b <= u16::MAX { (a + b) as u16 } else { u16::MAX }),
{
    if a as u32 + b as u32 <= 65535 { a + b } else { 65535 }
}

/// The size a split asks for.
pub fn split_request(
    axis: SplitAxis,
    width: u16,
    height: u16,
    first_request: (u16, u16),
    second_request: (u16, u16),
    space_between: u16,
) -> (r: (u16, u16))
    ensures
        r == split_request_spec(axis, width, height, first_request, second_request, space_between),
{
    match axis {
        SplitAxis::Horizontal => {
            let along = saturating_add(saturating_add(first_request.0, space_between), second_request.0);
            let across = if first_request.1 < second_request.1 { second_request.1 } else { first_request.1 };
            (if along < width { along } else { width }, across)
        },
        SplitAxis::Vertical => {
            let along = saturating_add(saturating_add(first_request.1, space_between), second_request.1);
            let across = if first_request.0 < second_request.0 { second_request.0 } else { first_request.0 };
            (across, if along < height { along } else { height })
        },
    }
}

/// Which half a focus coming from a position is offered first: the first half when the
/// position is not past the middle of the space between the halves.
pub open spec fn first_offered_spec(
    axis: SplitAxis,
    focus_position: (u16, u16),
    area: Area,
    first_size: u16,
    space_between: u16,
) -> SplitHalf {
    let (coordinate, start) = match axis {
        SplitAxis::Horizontal => (focus_position.0, area.x),
        SplitAxis::Vertical => (focus_position.1, area.y),
    };
    if coordinate <= start + first_size + space_between / 2 {
        SplitHalf::First
    } else {
        SplitHalf::Second
    }
}

/// Which half a focus coming from a position is offered first; the other is offered it only if
/// that one refuses it.
pub fn first_offered(axis: SplitAxis, focus_position: (u16, u16), area: Area, first_size: u16, space_between: u16) -> (r:
    SplitHalf)
    requires
        axis == SplitAxis::Horizontal ==> area.x + first_size + space_between / 2 <= u16::MAX,
        axis == SplitAxis::Vertical ==> area.y + first_size + space_between / 2 <= u16::MAX,
    ensures
        r == first_offered_spec(axis, focus_position, area, first_size, space_between),
{
    let (coordinate, start) = match axis {
        SplitAxis::Horizontal => (focus_position.0, area.x),
        SplitAxis::Vertical => (focus_position.1, area.y),
    };
    if coordinate <= start + first_size + space_between / 2 {
        SplitHalf::First
    } else {
        SplitHalf::Second
    }
}

/// What a split does after its focused half handled an event.
#[derive(Debug, Clone, Copy, PartialEq, Eq)]
pub enum SplitStep {
    /// Answer with this status.
    Answer(HandleEventStatus),
    /// Let the other half, unfocused, handle the event, and answer with its status.
    AskOther,
    /// Offer the focus to the other half from this position: if it takes it, the focused half
    /// loses the focus and the event is handled; otherwise the status stands.
    OfferOther((u16, u16)),
}

/// What a split does after its focused half handled an event: an unhandled event goes to the
/// other half; a focus passed down or forward from the first half, or up or forward from the
/// second, is offered to the other half; any other status is the answer.
pub open spec fn after_focused_spec(focused: SplitHalf, status: HandleEventStatus) -> SplitStep {
    match status {
        HandleEventStatus::Unhandled => SplitStep::AskOther,
        HandleEventStatus::PassFocus(position, direction) => {
            let toward_other = match focused {
                SplitHalf::First => direction == PassFocusDirection::Down || direction == PassFocusDirection::Forward,
                SplitHalf::Second => direction == PassFocusDirection::Up || direction == PassFocusDirection::Forward,
            };
            if toward_other {
                SplitStep::OfferOther(position)
            } else {
                SplitStep::Answer(status)
            }
        },
        HandleEventStatus::Handled => SplitStep::Answer(status),
    }
}

/// What a split does after its focused half handled an event.
pub fn after_focused(focused: SplitHalf, status: HandleEventStatus) -> (r: SplitStep)
    ensures
        r == after_focused_spec(focused, status),
{
    match status {
        HandleEventStatus::Unhandled => SplitStep::AskOther,
        HandleEventStatus::PassFocus(position, direction) => {
            let toward_other = match focused {
                SplitHalf::First => match direction {
                    PassFocusDirection::Down | PassFocusDirection::Forward => true,
                    _ => false,
                },
                SplitHalf::Second => match direction {
                    PassFocusDirection::Up | PassFocusDirection::Forward => true,
                    _ => false,
                },
            };
            if toward_other {
                SplitStep::OfferOther(position)
            } else {
                SplitStep::Answer(status)
            }
        },
        HandleEventStatus::Handled => SplitStep::Answer(status),
    }
}

} // verus!
