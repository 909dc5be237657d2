use vstd::prelude::*;

verus! {

/// An axis-aligned box, either in atlas-page space or in screen space.
#[derive(Clone, Copy, Debug, PartialEq, Eq, Structural)]
pub struct Rect {
    pub x: i32,
    pub y: i32,
    pub width: u32,
    pub height: u32,
}

} // verus!
