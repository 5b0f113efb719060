//! Surface-local coordinates and the line segments drawn between them.

use vstd::prelude::*;

verus! {

/// A position on the surface, in pixels, with the origin at the top-left corner.
#[derive(Clone, Copy, Debug, PartialEq, Eq, Structural)]
pub struct Point {
    pub x: i32,
    pub y: i32,
}

/// A straight line from `start` to `end`.
#[derive(Clone, Copy, Debug, PartialEq, Eq, Structural)]
pub struct Segment {
    pub start: Point,
    pub end: Point,
}

impl Point {
    /// The point at column `x`, row `y`.
    pub fn new(x: i32, y: i32) -> (p: Point)
        ensures
            p == (Point { x, y }),
    {
        Point { x, y }
    }
}

impl Segment {
    /// The segment that leaves `start` and arrives at `end`.
    pub fn new(start: Point, end: Point) -> (s: Segment)
        ensures
            s == (Segment { start, end }),
    {
        Segment { start, end }
    }
}

} // verus!
