//! Integer pixel geometry: points, sizes and rectangles.

use vstd::prelude::*;

verus! {

/// A pixel coordinate. The y axis grows downwards.
#[derive(Clone, Copy, Debug, PartialEq, Eq, Structural, Hash)]
pub struct Point {
    pub x: i32,
    pub y: i32,
}

/// A width and a height in pixels. Both are unsigned, so no size is negative.
#[derive(Clone, Copy, Debug, PartialEq, Eq, Structural, Hash)]
pub struct Size {
    pub width: u32,
    pub height: u32,
}

/// A rectangle on the desktop: the pixel of its top-left corner and its size.
///
/// Both a monitor and a tray icon are described by one.
#[derive(Clone, Copy, Debug, PartialEq, Eq, Structural, Hash)]
pub struct Rect {
    pub position: Point,
    pub size: Size,
}

impl Point {
    /// The point `(x, y)`.
    pub fn new(x: i32, y: i32) -> (p: Point)
        ensures
            p == (Point { x, y }),
    {
        Point { x, y }
    }
}

impl Size {
    /// The size `width` by `height`.
    pub fn new(width: u32, height: u32) -> (s: Size)
        ensures
            s == (Size { width, height }),
    {
        Size { width, height }
    }
}

impl Rect {
    /// The rectangle whose top-left corner is `(x, y)` and whose size is
    /// `width` by `height`.
    pub fn new(x: i32, y: i32, width: u32, height: u32) -> (r: Rect)
        ensures
            r == (Rect { position: Point { x, y }, size: Size { width, height } }),
    {
        Rect { position: Point { x, y }, size: Size { width, height } }
    }
}

} // verus!
