use vstd::prelude::*;

use crate::tui::ui_element::AutosizeUIElement;

verus! {

/// The least and the greatest size, as (width, height), that a popup's content may take.
#[derive(Debug, Clone, Copy, PartialEq, Eq)]
pub struct SizeConstraint {
    pub min: (u16, u16),
    pub max: (u16, u16),
}

/// `v` brought within `lo..=hi`.
pub open spec fn clamp_spec(v: u16, lo: u16, hi: u16) -> u16 {
    if v < lo { lo } else if v > hi { hi } else { v }
}

/// The smaller of two sizes.
pub open spec fn min_u16_spec(a: u16, b: u16) -> u16 {
    if a < b { a } else { b }
}

impl SizeConstraint {
    /// No constraint: anything from nothing to the largest size.
    pub fn new() -> (c: Self)
        ensures
            c.min == (0u16, 0u16),
            c.max == (u16::MAX, u16::MAX),
    {
        Self { min: (0, 0), max: (u16::MAX, u16::MAX) }
    }

    /// This constraint with the given least size.
    pub fn min(self, min_width: u16, min_height: u16) -> (c: Self)
        ensures
            c.min == (min_width, min_height),
            c.max == self.max,
    {
        Self { min: (min_width, min_height), max: self.max }
    }

    /// This constraint with the given greatest size.
    pub fn max(self, max_width: u16, max_height: u16) -> (c: Self)
        ensures
            c.min == self.min,
            c.max == (max_width, max_height),
    {
        Self { min: self.min, max: (max_width, max_height) }
    }

    pub fn default() -> (c: Self)
        ensures
            c.min == (0u16, 0u16),
            c.max == (u16::MAX, u16::MAX),
    {
        Self::new()
    }

    /// Whether the least size is within the greatest one.
    pub open spec fn is_valid(self) -> bool {
        self.min.0 <= self.max.0 && self.min.1 <= self.max.1
    }

    /// The space offered to the content: what is available, within the greatest size.
    pub fn available(&self, width: u16, height: u16) -> (r: (u16, u16))
        ensures
            r == (min_u16_spec(width, self.max.0), min_u16_spec(height, self.max.1)),
    {
        (if width < self.max.0 { width } else { self.max.0 }, if height < self.max.1 { height } else { self.max.1 })
    }

    /// The size the content asked for, brought within the constraint.
    pub fn constrain(&self, size: (u16, u16)) -> (r: (u16, u16))
        requires
            self.is_valid(),
        ensures
            r == (clamp_spec(size.0, self.min.0, self.max.0), clamp_spec(size.1, self.min.1, self.max.1)),
            self.min.0 <= r.0 <= self.max.0,
            self.min.1 <= r.1 <= self.max.1,
    {
        let w = if size.0 < self.min.0 {
            self.min.0
        } else if size.0 > self.max.0 {
            self.max.0
        } else {
            size.0
        };
        let h = if size.1 < self.min.1 {
            self.min.1
        } else if size.1 > self.max.1 {
            self.max.1
        } else {
            size.1
        };
        (w, h)
    }
}

/// Without a constraint (`SizeConstraint::new`), content is offered all the space available
/// and the size it asks for is kept as it is.
pub proof fn lemma_unconstrained_passes_through(width: u16, height: u16, asked: (u16, u16))
    ensures
        min_u16_spec(width, u16::MAX) == width,
        min_u16_spec(height, u16::MAX) == height,
        (clamp_spec(asked.0, 0, u16::MAX), clamp_spec(asked.1, 0, u16::MAX)) == asked,
{
}

/// Content whose size is kept within a constraint.
pub struct ConstrainedPopupContent<T: AutosizeUIElement> {
    pub size_constraint: SizeConstraint,
    pub inner: T,
}

impl<T: AutosizeUIElement> ConstrainedPopupContent<T> {
    pub fn new(size_constraint: SizeConstraint, inner: T) -> (c: Self)
        ensures
            c.size_constraint == size_constraint,
            c.inner == inner,
    {
        Self { size_constraint, inner }
    }

    /// Offers the content the available space within the greatest size, and brings the size it
    /// asks for within the constraint.
    pub fn begin_resize(&mut self, width: u16, height: u16) -> (r: (u16, u16))
        requires
            old(self).size_constraint.is_valid(),
        ensures
            final(self).size_constraint == old(self).size_constraint,
            ({
                let c = old(self).size_constraint;
                let offered = (min_u16_spec(width, c.max.0), min_u16_spec(height, c.max.1));
                let asked = old(self).inner.asked_size(offered.0, offered.1);
                r == (clamp_spec(asked.0, c.min.0, c.max.0), clamp_spec(asked.1, c.min.1, c.max.1))
            }),
            old(self).size_constraint.min.0 <= r.0 <= old(self).size_constraint.max.0,
            old(self).size_constraint.min.1 <= r.1 <= old(self).size_constraint.max.1,
    {
        let (w, h) = self.size_constraint.available(width, height);
        let asked = self.inner.begin_resize(w, h);
        self.size_constraint.constrain(asked)
    }
}

} // verus!
