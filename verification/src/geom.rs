//! Plain geometry value types: a window-local point and a width/height pair.

use vstd::prelude::*;

verus! {

/// A window-local position, in pixels, with the origin at the top-left
/// corner of the client area.
#[derive(Clone, Copy, Debug, PartialEq, Eq, Structural)]
pub struct Vector2 {
    pub x: u32,
    pub y: u32,
}

impl Vector2 {
    pub fn new(x: u32, y: u32) -> (v: Vector2)
        ensures
            v == (Vector2 { x, y }),
    {
        Vector2 { x, y }
    }
}

/// A client-area extent: width and height in pixels. Both are unsigned, so a
/// rectangle can never have negative extent.
#[derive(Clone, Copy, Debug, PartialEq, Eq, Structural)]
pub struct Rect2 {
    pub width: u32,
    pub height: u32,
}

impl Rect2 {
    pub fn new(width: u32, height: u32) -> (r: Rect2)
        ensures
            r == (Rect2 { width, height }),
    {
        Rect2 { width, height }
    }
}

} // verus!
