//! The stroke controller: one press flag and three reactions to pointer events.
//!
//! The controller never touches a surface itself. Each reaction returns the
//! path commands that the caller must forward, in order, to the drawing
//! surface the controller is paired with.

use vstd::prelude::*;

use crate::command::DrawCommand;
use crate::pointer::{PointerEvent, PointerSample};

verus! {

/// The commands a press at `sample` issues: a fresh path anchored at the sample.
pub open spec fn press_commands(sample: PointerSample) -> Seq<DrawCommand> {
    seq![DrawCommand::BeginPath, DrawCommand::MoveTo(sample.position())]
}

/// The commands a move to `sample` issues: none while the pointer is up; while
/// it is down, a line to the sample committed at once, then a fresh path
/// anchored at the sample.
pub open spec fn move_commands(pressed: bool, sample: PointerSample) -> Seq<DrawCommand> {
    if pressed {
        seq![
            DrawCommand::LineTo(sample.position()),
            DrawCommand::Stroke,
            DrawCommand::BeginPath,
            DrawCommand::MoveTo(sample.position()),
        ]
    } else {
        Seq::empty()
    }
}

/// The commands a release at `sample` issues: a line to the sample, committed.
pub open spec fn release_commands(sample: PointerSample) -> Seq<DrawCommand> {
    seq![DrawCommand::LineTo(sample.position()), DrawCommand::Stroke]
}

/// The press flag after `event`, given the flag before it.
pub open spec fn next_pressed(pressed: bool, event: PointerEvent) -> bool {
    match event {
        PointerEvent::Press(_) => true,
        PointerEvent::Move(_) => pressed,
        PointerEvent::Release(_) => false,
    }
}

/// The commands `event` issues, given the press flag before it.
pub open spec fn event_commands(pressed: bool, event: PointerEvent) -> Seq<DrawCommand> {
    match event {
        PointerEvent::Press(sample) => press_commands(sample),
        PointerEvent::Move(sample) => move_commands(pressed, sample),
        PointerEvent::Release(sample) => release_commands(sample),
    }
}

/// The press flag after each of `events` in turn, given the flag before them.
pub open spec fn pressed_after(pressed: bool, events: Seq<PointerEvent>) -> bool
    decreases events.len(),
{
    if events.len() == 0 {
        pressed
    } else {
        next_pressed(pressed_after(pressed, events.drop_last()), events.last())
    }
}

/// The commands that `events` issue one after the other, given the press flag
/// before them.
pub open spec fn commands_for(pressed: bool, events: Seq<PointerEvent>) -> Seq<DrawCommand>
    decreases events.len(),
{
    if events.len() == 0 {
        Seq::empty()
    } else {
        commands_for(pressed, events.drop_last()) + event_commands(
            pressed_after(pressed, events.drop_last()),
            events.last(),
        )
    }
}

/// Tracks whether the pointer is down and turns pointer events into path commands.
///
/// One controller serves one surface for as long as the surface lives: the
/// three reactions must all see the same press flag.
#[derive(Debug)]
pub struct StrokeController {
    pressed: bool,
}

impl StrokeController {
    /// Whether the pointer is currently down.
    pub closed spec fn spec_is_pressed(&self) -> bool {
        self.pressed
    }

    /// A controller for a pointer that is up.
    pub fn new() -> (controller: StrokeController)
        ensures
            !controller.is_pressed(),
    {
        StrokeController { pressed: false }
    }

    /// Whether the pointer is currently down.
    #[verifier::when_used_as_spec(spec_is_pressed)]
    pub fn is_pressed(&self) -> (pressed: bool)
        ensures
            pressed == self.spec_is_pressed(),
    {
        self.pressed
    }

    /// Reacts to the button going down at `sample`.
    ///
    /// Anchors a new path at the sample, discarding any unfinished one, and
    /// marks the pointer as down. Nothing is committed. A press while the
    /// pointer is already down simply moves the anchor.
    pub fn on_press(&mut self, sample: PointerSample) -> (commands: Vec<DrawCommand>)
        ensures
            final(self).is_pressed(),
            commands@ == press_commands(sample),
    {
        let mut commands: Vec<DrawCommand> = Vec::new();
        commands.push(DrawCommand::BeginPath);
        commands.push(DrawCommand::MoveTo(sample.position()));
        self.pressed = true;
        commands
    }

    /// Reacts to the pointer moving to `sample`.
    ///
    /// While the pointer is up this does nothing. While it is down, the path
    /// is extended to the sample and committed at once, and a new path is
    /// anchored at the sample, so every segment shows as soon as it is drawn.
    /// The press flag is left as it was.
    pub fn on_move(&mut self, sample: PointerSample) -> (commands: Vec<DrawCommand>)
        ensures
            final(self).is_pressed() == old(self).is_pressed(),
            commands@ == move_commands(old(self).is_pressed(), sample),
    {
        let mut commands: Vec<DrawCommand> = Vec::new();
        if self.pressed {
            commands.push(DrawCommand::LineTo(sample.position()));
            commands.push(DrawCommand::Stroke);
            commands.push(DrawCommand::BeginPath);
            commands.push(DrawCommand::MoveTo(sample.position()));
        }
        commands
    }

    /// Reacts to the button coming up at `sample`.
    ///
    /// Marks the pointer as up, then extends the path to the sample and
    /// commits it. The line is issued whether or not the pointer was down.
    pub fn on_release(&mut self, sample: PointerSample) -> (commands: Vec<DrawCommand>)
        ensures
            !final(self).is_pressed(),
            commands@ == release_commands(sample),
    {
        self.pressed = false;
        let mut commands: Vec<DrawCommand> = Vec::new();
        commands.push(DrawCommand::LineTo(sample.position()));
        commands.push(DrawCommand::Stroke);
        commands
    }

    /// Reacts to `event` with the reaction that matches its kind.
    pub fn handle(&mut self, event: PointerEvent) -> (commands: Vec<DrawCommand>)
        ensures
            final(self).is_pressed() == next_pressed(old(self).is_pressed(), event),
            commands@ == event_commands(old(self).is_pressed(), event),
    {
        match event {
            PointerEvent::Press(sample) => self.on_press(sample),
            PointerEvent::Move(sample) => self.on_move(sample),
            PointerEvent::Release(sample) => self.on_release(sample),
        }
    }

    /// Reacts to each of `events` in turn and returns all the commands they
    /// issue, in the order they were issued.
    pub fn replay(&mut self, events: &Vec<PointerEvent>) -> (commands: Vec<DrawCommand>)
        ensures
            final(self).is_pressed() == pressed_after(old(self).is_pressed(), events@),
            commands@ == commands_for(old(self).is_pressed(), events@),
    {
        let mut commands: Vec<DrawCommand> = Vec::new();
        let mut i: usize = 0;
        while i < events.len()
            invariant
                i <= events@.len(),
                self.is_pressed() == pressed_after(old(self).is_pressed(), events@.take(i as int)),
                commands@ == commands_for(old(self).is_pressed(), events@.take(i as int)),
            decreases events@.len() - i,
        {
            assert(events@.take(i + 1).drop_last() == events@.take(i as int));
            let mut issued = self.handle(events[i]);
            commands.append(&mut issued);
            i = i + 1;
        }
        assert(events@.take(i as int) == events@);
        commands
    }
}

} // verus!
