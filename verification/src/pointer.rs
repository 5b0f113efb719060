//! What the host's input system reports: a position, and what the pointer did there.

use vstd::prelude::*;

use crate::geometry::Point;

verus! {

/// One reported position of the pointing device, in surface-local pixels.
#[derive(Clone, Copy, Debug, PartialEq, Eq, Structural)]
pub struct PointerSample {
    pub x: i32,
    pub y: i32,
}

/// A pointer sample together with the kind of event that produced it.
#[derive(Clone, Copy, Debug, PartialEq, Eq, Structural)]
pub enum PointerEvent {
    /// The button went down at the sample.
    Press(PointerSample),
    /// The pointer moved to the sample.
    Move(PointerSample),
    /// The button came up at the sample.
    Release(PointerSample),
}

impl PointerSample {
    /// The sample reported at column `x`, row `y`.
    pub fn new(x: i32, y: i32) -> (sample: PointerSample)
        ensures
            sample == (PointerSample { x, y }),
    {
        PointerSample { x, y }
    }

    /// The point of the surface under the sample.
    pub open spec fn spec_position(&self) -> Point {
        Point { x: self.x, y: self.y }
    }

    /// The point of the surface under the sample.
    #[verifier::when_used_as_spec(spec_position)]
    pub fn position(&self) -> (point: Point)
        ensures
            point == self.spec_position(),
    {
        Point { x: self.x, y: self.y }
    }
}

impl PointerEvent {
    /// The sample the event carries, whatever its kind.
    pub open spec fn spec_sample(&self) -> PointerSample {
        match *self {
            PointerEvent::Press(sample) => sample,
            PointerEvent::Move(sample) => sample,
            PointerEvent::Release(sample) => sample,
        }
    }

    /// The sample the event carries, whatever its kind.
    #[verifier::when_used_as_spec(spec_sample)]
    pub fn sample(&self) -> (sample: PointerSample)
        ensures
            sample == self.spec_sample(),
    {
        match *self {
            PointerEvent::Press(sample) => sample,
            PointerEvent::Move(sample) => sample,
            PointerEvent::Release(sample) => sample,
        }
    }
}

} // verus!
