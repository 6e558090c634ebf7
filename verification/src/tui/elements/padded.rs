//! An element with empty space around it.

use vstd::prelude::*;

use crate::tui::elements::split::Area;
use crate::tui::ui_element::AutosizeUIElement;

verus! {

/// The empty columns left and right and the empty rows above and below an element.
#[derive(Debug, Clone, Copy, PartialEq, Eq, Structural)]
pub struct Padding {
    pub left: u16,
    pub right: u16,
    pub top: u16,
    pub bottom: u16,
}

/// `a - b`, or zero where `b` is larger.
pub open spec fn sub_or_zero(a: int, b: int) -> int {
    if a > b { a - b } else { 0 }
}

/// `a + b`, or the largest `u16` where that is larger.
pub open spec fn add_or_max(a: int, b: int) -> int {
    if a + b > u16::MAX { u16::MAX as int } else { a + b }
}

/// The area of the element inside the padding: moved in by the left and top padding, and
/// smaller by the padding on both sides (down to nothing).
pub open spec fn inner_area_spec(padding: Padding, area: Area) -> Area {
    Area {
        x: (area.x + padding.left) as u16,
        y: (area.y + padding.top) as u16,
        width: sub_or_zero(area.width as int, padding.right + padding.left) as u16,
        height: sub_or_zero(area.height as int, padding.top + padding.bottom) as u16,
    }
}

/// The space offered to the element for the space offered to the padded element: less the
/// padding on both sides, down to nothing.
pub open spec fn offered_size_spec(padding: Padding, width: u16, height: u16) -> (u16, u16) {
    (
        sub_or_zero(sub_or_zero(width as int, padding.left as int), padding.right as int) as u16,
        sub_or_zero(sub_or_zero(height as int, padding.top as int), padding.bottom as int) as u16,
    )
}

/// The size the padded element asks for when the element asks for `asked`: with the padding
/// added on both sides, up to the largest `u16`.
pub open spec fn padded_size_spec(padding: Padding, asked: (u16, u16)) -> (u16, u16) {
    (
        add_or_max(add_or_max(asked.0 as int, padding.left as int), padding.right as int) as u16,
        add_or_max(add_or_max(asked.1 as int, padding.top as int), padding.bottom as int) as u16,
    )
}

/// An element with padding around it.
pub struct Padded<T: AutosizeUIElement> {
    pub padding: Padding,
    pub inner: T,
}

impl<T: AutosizeUIElement> Padded<T> {
    pub fn new(padding: Padding, inner: T) -> (p: Self)
        ensures
            p.padding == padding,
            p.inner == inner,
    {
        Self { padding, inner }
    }

    /// The area of the element inside the padding, within `area`. The area it gives must not
    /// hold more cells than a `u16` counts.
    pub fn inner_area(&self, area: Area) -> (r: Area)
        requires
            area.x + self.padding.left <= u16::MAX,
            area.y + self.padding.top <= u16::MAX,
            self.padding.right + self.padding.left <= u16::MAX,
            self.padding.top + self.padding.bottom <= u16::MAX,
            inner_area_spec(self.padding, area).width * inner_area_spec(self.padding, area).height <= u16::MAX,
        ensures
            r == inner_area_spec(self.padding, area),
    {
        let horizontal: u16 = self.padding.right + self.padding.left;
        let vertical: u16 = self.padding.top + self.padding.bottom;
        Area {
            x: area.x + self.padding.left,
            y: area.y + self.padding.top,
            width: if area.width > horizontal { area.width - horizontal } else { 0 },
            height: if area.height > vertical { area.height - vertical } else { 0 },
        }
    }
}

/// The space offered to the element inside the padding.
pub fn offered_size(padding: Padding, width: u16, height: u16) -> (r: (u16, u16))
    ensures
        r == offered_size_spec(padding, width, height),
{
    let w = width.saturating_sub(padding.left).saturating_sub(padding.right);
    let h = height.saturating_sub(padding.top).saturating_sub(padding.bottom);
    (w, h)
}

/// The size the padded element asks for, given the size the element inside asked for.
pub fn padded_size(padding: Padding, asked: (u16, u16)) -> (r: (u16, u16))
    ensures
        r == padded_size_spec(padding, asked),
{
    let w = asked.0.saturating_add(padding.left).saturating_add(padding.right);
    let h = asked.1.saturating_add(padding.top).saturating_add(padding.bottom);
    (w, h)
}

impl<T: AutosizeUIElement> AutosizeUIElement for Padded<T> {
    /// What the element inside asks for when offered the space less the padding, plus the
    /// padding.
    open spec fn asked_size(&self, width: u16, height: u16) -> (u16, u16) {
        let offered = offered_size_spec(self.padding, width, height);
        padded_size_spec(self.padding, self.inner.asked_size(offered.0, offered.1))
    }

    /// Offers the element the space less the padding, and asks for what it asks plus the
    /// padding.
    fn begin_resize(&mut self, width: u16, height: u16) -> (r: (u16, u16))
        ensures
            final(self).padding == old(self).padding,
    {
        let (w, h) = offered_size(self.padding, width, height);
        let asked = self.inner.begin_resize(w, h);
        padded_size(self.padding, asked)
    }
}

} // verus!
