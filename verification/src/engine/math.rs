//! Plain value types shared by the engine's logic.

use vstd::prelude::*;

verus! {

/// A two-component unsigned vector, used for framebuffer and window sizes.
#[derive(Debug, Clone, Copy, PartialEq, Eq, Structural)]
pub struct UVec2 {
    pub x: u32,
    pub y: u32,
}

impl UVec2 {
    pub fn new(x: u32, y: u32) -> (r: Self)
        ensures
            r.x == x,
            r.y == y,
    {
        UVec2 { x, y }
    }
}

/// The coordinate axes of the engine's right-handed world space.
pub struct Axes;

} // verus!
