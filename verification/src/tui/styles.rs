use vstd::prelude::*;

verus! {

/// The characters a frame is drawn with.
#[derive(Debug, Clone, Copy, PartialEq, Eq)]
pub struct FrameType {
    pub vertical: &'static str,
    pub horizontal: &'static str,
    pub top_left_corner: &'static str,
    pub top_right_corner: &'static str,
    pub bottom_left_corner: &'static str,
    pub bottom_right_corner: &'static str,
}

impl FrameType {
    pub fn new(
        vertical: &'static str,
        horizontal: &'static str,
        top_left_corner: &'static str,
        top_right_corner: &'static str,
        bottom_left_corner: &'static str,
        bottom_right_corner: &'static str,
    ) -> (f: Self)
        ensures
            f.vertical == vertical,
            f.horizontal == horizontal,
            f.top_left_corner == top_left_corner,
            f.top_right_corner == top_right_corner,
            f.bottom_left_corner == bottom_left_corner,
            f.bottom_right_corner == bottom_right_corner,
    {
        Self { vertical, horizontal, top_left_corner, top_right_corner, bottom_left_corner, bottom_right_corner }
    }
}

} // verus!
