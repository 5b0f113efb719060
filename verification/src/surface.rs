//! What path commands do to a drawing surface, and a surface held in memory.
//!
//! The surface follows the usual immediate-mode rules. A path is built from
//! line segments and stays invisible until it is stroked. Stroking commits the
//! whole path under construction and leaves the path in place, so a path that
//! is stroked twice without being restarted is committed twice.

use vstd::prelude::*;

use crate::command::DrawCommand;
use crate::geometry::{Point, Segment};

verus! {

/// The state of a drawing surface, as far as line drawing can tell.
#[verifier::ext_equal]
pub struct SurfaceState {
    /// Where the next line would start, or `None` while the path has no point yet.
    pub cursor: Option<Point>,
    /// The segments of the path under construction, oldest first.
    pub path: Seq<Segment>,
    /// Every segment committed so far, oldest first.
    pub ink: Seq<Segment>,
}

impl SurfaceState {
    /// A surface nothing has been drawn on, with an empty path.
    pub open spec fn blank() -> SurfaceState {
        SurfaceState { cursor: None, path: Seq::empty(), ink: Seq::empty() }
    }

    /// Whether the path under construction is a lone point at `point`.
    pub open spec fn anchored_at(self, point: Point) -> bool {
        self.cursor == Some(point) && self.path.len() == 0
    }

    /// The surface after `command`.
    ///
    /// A line to a point needs a point to start from: on a path without one it
    /// only sets the cursor, as a move would.
    pub open spec fn perform(self, command: DrawCommand) -> SurfaceState {
        match command {
            DrawCommand::BeginPath => SurfaceState {
                cursor: None,
                path: Seq::empty(),
                ink: self.ink,
            },
            DrawCommand::MoveTo(point) => SurfaceState {
                cursor: Some(point),
                path: self.path,
                ink: self.ink,
            },
            DrawCommand::LineTo(point) => match self.cursor {
                Some(start) => SurfaceState {
                    cursor: Some(point),
                    path: self.path.push(Segment { start, end: point }),
                    ink: self.ink,
                },
                None => SurfaceState { cursor: Some(point), path: self.path, ink: self.ink },
            },
            DrawCommand::Stroke => SurfaceState {
                cursor: self.cursor,
                path: self.path,
                ink: self.ink + self.path,
            },
        }
    }

    /// The surface after each of `commands` in turn.
    pub open spec fn perform_all(self, commands: Seq<DrawCommand>) -> SurfaceState
        decreases commands.len(),
    {
        if commands.len() == 0 {
            self
        } else {
            self.perform_all(commands.drop_last()).perform(commands.last())
        }
    }
}

/// A drawing surface held in memory: it keeps segments where a screen keeps pixels.
#[derive(Debug)]
pub struct Surface {
    cursor: Option<Point>,
    path: Vec<Segment>,
    ink: Vec<Segment>,
}

impl View for Surface {
    type V = SurfaceState;

    closed spec fn view(&self) -> SurfaceState {
        SurfaceState { cursor: self.cursor, path: self.path@, ink: self.ink@ }
    }
}

impl Surface {
    /// A blank surface.
    pub fn new() -> (surface: Surface)
        ensures
            surface@ == SurfaceState::blank(),
    {
        Surface { cursor: None, path: Vec::new(), ink: Vec::new() }
    }

    /// Carries out one command.
    pub fn perform(&mut self, command: DrawCommand)
        ensures
            final(self)@ == old(self)@.perform(command),
    {
        match command {
            DrawCommand::BeginPath => {
                self.cursor = None;
                self.path = Vec::new();
            },
            DrawCommand::MoveTo(point) => {
                self.cursor = Some(point);
            },
            DrawCommand::LineTo(point) => {
                match self.cursor {
                    Some(start) => {
                        self.path.push(Segment { start, end: point });
                    },
                    None => {},
                }
                self.cursor = Some(point);
            },
            DrawCommand::Stroke => {
                let mut i: usize = 0;
                while i < self.path.len()
                    invariant
                        i <= self.path@.len(),
                        self.cursor == old(self).cursor,
                        self.path@ == old(self).path@,
                        self.ink@ == old(self).ink@ + self.path@.take(i as int),
                    decreases self.path@.len() - i,
                {
                    let segment = self.path[i];
                    self.ink.push(segment);
                    i = i + 1;
                }
            },
        }
    }

    /// Carries out `commands` from first to last.
    pub fn perform_all(&mut self, commands: &Vec<DrawCommand>)
        ensures
            final(self)@ == old(self)@.perform_all(commands@),
    {
        let mut i: usize = 0;
        while i < commands.len()
            invariant
                i <= commands@.len(),
                self@ == old(self)@.perform_all(commands@.take(i as int)),
            decreases commands@.len() - i,
        {
            assert(commands@.take(i + 1).drop_last() == commands@.take(i as int));
            self.perform(commands[i]);
            i = i + 1;
        }
        assert(commands@.take(i as int) == commands@);
    }

    /// Where the next line would start, or `None` while the path has no point yet.
    pub fn cursor(&self) -> (cursor: Option<Point>)
        ensures
            cursor == self@.cursor,
    {
        self.cursor
    }

    /// The segments of the path under construction, oldest first.
    pub fn path(&self) -> (path: &Vec<Segment>)
        ensures
            path@ == self@.path,
    {
        &self.path
    }

    /// Every segment committed so far, oldest first.
    pub fn ink(&self) -> (ink: &Vec<Segment>)
        ensures
            ink@ == self@.ink,
    {
        &self.ink
    }
}

} // verus!
