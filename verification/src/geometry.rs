//! Plain integer points and axis-aligned rectangles, the coordinate model
//! used by the whole simulation (positions, zones, obstacles).

use vstd::prelude::*;

verus! {

/// A pixel position on the map.
#[derive(Clone, Copy, PartialEq, Eq, Structural, Debug)]
pub struct Point {
    pub x: i32,
    pub y: i32,
}

/// An axis-aligned rectangle: top-left corner plus width and height.
#[derive(Clone, Copy, PartialEq, Eq, Structural, Debug)]
pub struct Rect {
    pub x: i32,
    pub y: i32,
    pub width: u32,
    pub height: u32,
}

impl Point {
    pub fn new(x: i32, y: i32) -> (p: Point)
        ensures
            p == (Point { x, y }),
    {
        Point { x, y }
    }
}

impl Rect {
    pub fn new(x: i32, y: i32, width: u32, height: u32) -> (r: Rect)
        ensures
            r == (Rect { x, y, width, height }),
    {
        Rect { x, y, width, height }
    }

    /// The point lies in the half-open box `[x, x+width) x [y, y+height)`.
    pub open spec fn spec_contains(self, p: Point) -> bool {
        &&& self.x <= p.x < self.x + self.width
        &&& self.y <= p.y < self.y + self.height
    }

    /// Point-in-rectangle test; comparisons are widened so no input overflows.
    pub fn contains_point(&self, p: Point) -> (r: bool)
        ensures
            r == self.spec_contains(p),
    {
        (self.x as i64) <= (p.x as i64) && (p.x as i64) < (self.x as i64) + (self.width as i64)
            && (self.y as i64) <= (p.y as i64) && (p.y as i64) < (self.y as i64) + (self.height
            as i64)
    }
}

} // verus!
