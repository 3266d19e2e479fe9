use vstd::prelude::*;

verus! {

/// Width of the screen in landscape orientation, in pixels.
pub const SCREEN_WIDTH: u32 = 320;

/// Height of the screen in landscape orientation, in pixels.
pub const SCREEN_HIGHT: u32 = 170;

/// A point on the screen; `x` grows to the right, `y` grows downwards.
#[derive(Clone, Copy, Debug, PartialEq, Eq, Structural)]
pub struct Point {
    pub x: i32,
    pub y: i32,
}

/// A width and a height, in pixels.
#[derive(Clone, Copy, Debug, PartialEq, Eq, Structural)]
pub struct Size {
    pub width: u32,
    pub height: u32,
}

/// An axis-aligned rectangle given by its top left corner and its size.
#[derive(Clone, Copy, Debug, PartialEq, Eq, Structural)]
pub struct Rectangle {
    pub top_left: Point,
    pub size: Size,
}

/// True when `v` can be held by an `i32`.
pub open spec fn fits_i32(v: int) -> bool {
    i32::MIN <= v <= i32::MAX
}

impl Point {
    pub fn new(x: i32, y: i32) -> (p: Point)
        ensures
            p.x == x,
            p.y == y,
    {
        Point { x, y }
    }
}

impl Size {
    pub fn new(width: u32, height: u32) -> (s: Size)
        ensures
            s.width == width,
            s.height == height,
    {
        Size { width, height }
    }
}

impl Rectangle {
    pub fn new(top_left: Point, size: Size) -> (r: Rectangle)
        ensures
            r.top_left == top_left,
            r.size == size,
    {
        Rectangle { top_left, size }
    }

    /// True when every point of `inner` lies inside `self`.
    pub open spec fn contains_rect(self, inner: Rectangle) -> bool {
        &&& self.top_left.x <= inner.top_left.x
        &&& self.top_left.y <= inner.top_left.y
        &&& inner.top_left.x + inner.size.width <= self.top_left.x + self.size.width
        &&& inner.top_left.y + inner.size.height <= self.top_left.y + self.size.height
    }
}

/// The whole screen.
pub fn screen_bounds() -> (r: Rectangle)
    ensures
        r.top_left == (Point { x: 0, y: 0 }),
        r.size == (Size { width: SCREEN_WIDTH, height: SCREEN_HIGHT }),
{
    Rectangle { top_left: Point { x: 0, y: 0 }, size: Size { width: SCREEN_WIDTH, height: SCREEN_HIGHT } }
}

} // verus!
