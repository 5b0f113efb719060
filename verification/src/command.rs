//! The path commands a drawing surface understands.

use vstd::prelude::*;

use crate::geometry::Point;

verus! {

/// One instruction for an immediate-mode 2D drawing surface.
#[derive(Clone, Copy, Debug, PartialEq, Eq, Structural)]
pub enum DrawCommand {
    /// Discard the path under construction and start an empty one.
    BeginPath,
    /// Put the pen down at the point without drawing a line to it.
    MoveTo(Point),
    /// Extend the path under construction with a straight line to the point.
    LineTo(Point),
    /// Commit the path under construction to the surface as visible ink.
    Stroke,
}

} // verus!
