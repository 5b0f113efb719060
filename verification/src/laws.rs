//! What holds of a stroke controller paired with a drawing surface.
//!
//! Every law speaks of a controller whose commands are all forwarded, in
//! order, to one surface. The controller is stood for by its press flag, the
//! surface by its [`SurfaceState`]; a law therefore holds of any surface that
//! treats commands as [`SurfaceState::perform`] says.

use vstd::prelude::*;

use crate::command::DrawCommand;
use crate::controller::{
    commands_for, event_commands, move_commands, next_pressed, press_commands, pressed_after,
    release_commands,
};
use crate::geometry::Segment;
use crate::pointer::{PointerEvent, PointerSample};
use crate::surface::SurfaceState;

verus! {

/// The segment that joins the point under `from` to the point under `to`.
pub open spec fn stroke_between(from: PointerSample, to: PointerSample) -> Segment {
    Segment { start: from.position(), end: to.position() }
}

/// The segments that join each of `samples` to the one after it, in order.
pub open spec fn polyline(samples: Seq<PointerSample>) -> Seq<Segment> {
    if samples.len() < 2 {
        Seq::empty()
    } else {
        Seq::new(
            (samples.len() - 1) as nat,
            |i: int| stroke_between(samples[i], samples[i + 1]),
        )
    }
}

/// The start of a drag through `samples`: a press at the first of them, then a
/// move to each of the others.
pub open spec fn pen_down(samples: Seq<PointerSample>) -> Seq<PointerEvent> {
    Seq::new(
        samples.len(),
        |i: int|
            if i == 0 {
                PointerEvent::Press(samples[i])
            } else {
                PointerEvent::Move(samples[i])
            },
    )
}

/// A whole drag through `samples`: a press at the first, a move to each one in
/// between, and a release at the last.
pub open spec fn drag(samples: Seq<PointerSample>) -> Seq<PointerEvent>
    recommends
        samples.len() >= 2,
{
    pen_down(samples.drop_last()).push(PointerEvent::Release(samples.last()))
}

/// Carrying out `first` followed by `second` is carrying out `first`, then
/// carrying out `second` on the result.
pub proof fn perform_all_concat(
    surface: SurfaceState,
    first: Seq<DrawCommand>,
    second: Seq<DrawCommand>,
)
    ensures
        surface.perform_all(first + second) == surface.perform_all(first).perform_all(second),
    decreases second.len(),
{
    if second.len() > 0 {
        perform_all_concat(surface, first, second.drop_last());
        assert((first + second).drop_last() =~= first + second.drop_last());
    }
}

/// Reacting to `first` followed by `second` is reacting to `first`, then
/// reacting to `second` with the press flag that `first` left.
pub proof fn replay_concat(pressed: bool, first: Seq<PointerEvent>, second: Seq<PointerEvent>)
    ensures
        pressed_after(pressed, first + second) == pressed_after(
            pressed_after(pressed, first),
            second,
        ),
        commands_for(pressed, first + second) == commands_for(pressed, first) + commands_for(
            pressed_after(pressed, first),
            second,
        ),
    decreases second.len(),
{
    if second.len() > 0 {
        replay_concat(pressed, first, second.drop_last());
        assert((first + second).drop_last() =~= first + second.drop_last());
    }
}

/// One more event after `events` adds its own commands to theirs and changes
/// the press flag they left.
pub proof fn replay_push(pressed: bool, events: Seq<PointerEvent>, event: PointerEvent)
    ensures
        pressed_after(pressed, events.push(event)) == next_pressed(
            pressed_after(pressed, events),
            event,
        ),
        commands_for(pressed, events.push(event)) == commands_for(pressed, events)
            + event_commands(pressed_after(pressed, events), event),
{
    assert(events.push(event).drop_last() =~= events);
}

/// Before the first event nothing has been issued: no events give no commands
/// and leave the press flag alone, and no commands leave the surface alone.
pub proof fn nothing_before_first_event(pressed: bool, surface: SurfaceState)
    ensures
        pressed_after(pressed, Seq::empty()) == pressed,
        commands_for(pressed, Seq::empty()) == Seq::<DrawCommand>::empty(),
        surface.perform_all(Seq::empty()) == surface,
{
}

/// A press anchors the path at its sample and draws nothing: whatever the
/// surface held, the path under construction becomes that lone point and the
/// ink stays as it was.
pub proof fn press_anchors_without_drawing(surface: SurfaceState, sample: PointerSample)
    ensures
        surface.perform_all(press_commands(sample)) == (SurfaceState {
            cursor: Some(sample.position()),
            path: Seq::empty(),
            ink: surface.ink,
        }),
        surface.perform_all(press_commands(sample)).anchored_at(sample.position()),
{
    reveal_with_fuel(SurfaceState::perform_all, 3);
}

/// A move while the pointer is up issues nothing and so has no effect on the
/// surface.
pub proof fn move_while_up_changes_nothing(surface: SurfaceState, sample: PointerSample)
    ensures
        move_commands(false, sample) == Seq::<DrawCommand>::empty(),
        surface.perform_all(move_commands(false, sample)) == surface,
{
}

/// A move while the pointer is down commits the path extended to its sample
/// and anchors a new path there.
pub proof fn move_while_down_commits_and_restarts(surface: SurfaceState, sample: PointerSample)
    ensures
        surface.perform_all(move_commands(true, sample)) == (SurfaceState {
            cursor: Some(sample.position()),
            path: Seq::empty(),
            ink: surface.ink + surface.perform(DrawCommand::LineTo(sample.position())).path,
        }),
        surface.perform_all(move_commands(true, sample)).anchored_at(sample.position()),
{
    reveal_with_fuel(SurfaceState::perform_all, 5);
}

/// A release commits the path extended to its sample and leaves that path in
/// place.
pub proof fn release_commits_in_place(surface: SurfaceState, sample: PointerSample)
    ensures
        surface.perform_all(release_commands(sample)) == (SurfaceState {
            cursor: Some(sample.position()),
            path: surface.perform(DrawCommand::LineTo(sample.position())).path,
            ink: surface.ink + surface.perform(DrawCommand::LineTo(sample.position())).path,
        }),
{
    reveal_with_fuel(SurfaceState::perform_all, 3);
}

/// While the pointer is down, the path under construction is a lone point
/// under the sample of the latest event, whatever came before.
pub proof fn down_means_anchored(
    surface: SurfaceState,
    pressed: bool,
    events: Seq<PointerEvent>,
)
    requires
        events.len() > 0,
        pressed_after(pressed, events),
    ensures
        surface.perform_all(commands_for(pressed, events)).anchored_at(
            events.last().sample().position(),
        ),
{
    let earlier = events.drop_last();
    let before = surface.perform_all(commands_for(pressed, earlier));
    perform_all_concat(
        surface,
        commands_for(pressed, earlier),
        event_commands(pressed_after(pressed, earlier), events.last()),
    );
    match events.last() {
        PointerEvent::Press(sample) => {
            press_anchors_without_drawing(before, sample);
        },
        PointerEvent::Move(sample) => {
            move_while_down_commits_and_restarts(before, sample);
        },
        PointerEvent::Release(_) => {},
    }
}

/// Ink is never taken back: what was committed before an event is still
/// there, in the same order, after it.
pub proof fn event_keeps_ink(surface: SurfaceState, pressed: bool, event: PointerEvent)
    ensures
        surface.ink.is_prefix_of(surface.perform_all(event_commands(pressed, event)).ink),
{
    match event {
        PointerEvent::Press(sample) => {
            press_anchors_without_drawing(surface, sample);
        },
        PointerEvent::Move(sample) => {
            if pressed {
                move_while_down_commits_and_restarts(surface, sample);
            }
        },
        PointerEvent::Release(sample) => {
            release_commits_in_place(surface, sample);
        },
    }
}

/// Ink is never taken back by any run of events.
pub proof fn events_keep_ink(surface: SurfaceState, pressed: bool, events: Seq<PointerEvent>)
    ensures
        surface.ink.is_prefix_of(surface.perform_all(commands_for(pressed, events)).ink),
    decreases events.len(),
{
    if events.len() > 0 {
        let earlier = events.drop_last();
        let before = surface.perform_all(commands_for(pressed, earlier));
        events_keep_ink(surface, pressed, earlier);
        perform_all_concat(
            surface,
            commands_for(pressed, earlier),
            event_commands(pressed_after(pressed, earlier), events.last()),
        );
        event_keeps_ink(before, pressed_after(pressed, earlier), events.last());
    }
}

/// A press followed by moves draws the line through all their samples: one
/// segment for each move, from the sample before it. The pointer is left down
/// with a new path anchored at the last sample. This holds on any surface and
/// whatever the press flag was.
pub proof fn pen_down_draws_polyline(
    surface: SurfaceState,
    pressed: bool,
    samples: Seq<PointerSample>,
)
    requires
        samples.len() >= 1,
    ensures
        pressed_after(pressed, pen_down(samples)),
        surface.perform_all(commands_for(pressed, pen_down(samples))).ink == surface.ink
            + polyline(samples),
        surface.perform_all(commands_for(pressed, pen_down(samples))).anchored_at(
            samples.last().position(),
        ),
    decreases samples.len(),
{
    let events = pen_down(samples);
    let earlier = samples.drop_last();
    assert(events.drop_last() =~= pen_down(earlier));
    let before = surface.perform_all(commands_for(pressed, pen_down(earlier)));
    perform_all_concat(
        surface,
        commands_for(pressed, pen_down(earlier)),
        event_commands(pressed_after(pressed, pen_down(earlier)), events.last()),
    );
    if samples.len() == 1 {
        press_anchors_without_drawing(before, samples.last());
    } else {
        pen_down_draws_polyline(surface, pressed, earlier);
        move_while_down_commits_and_restarts(before, samples.last());
    }
}

/// A whole drag draws the line through all its samples and nothing else: one
/// segment from each sample to the next, in order. The pointer is left up.
/// This holds on any surface and whatever the press flag was.
pub proof fn drag_draws_polyline(
    surface: SurfaceState,
    pressed: bool,
    samples: Seq<PointerSample>,
)
    requires
        samples.len() >= 2,
    ensures
        !pressed_after(pressed, drag(samples)),
        surface.perform_all(commands_for(pressed, drag(samples))).ink == surface.ink + polyline(
            samples,
        ),
{
    let earlier = samples.drop_last();
    let before = surface.perform_all(commands_for(pressed, pen_down(earlier)));
    pen_down_draws_polyline(surface, pressed, earlier);
    replay_push(pressed, pen_down(earlier), PointerEvent::Release(samples.last()));
    perform_all_concat(
        surface,
        commands_for(pressed, pen_down(earlier)),
        release_commands(samples.last()),
    );
    release_commits_in_place(before, samples.last());
}

/// A press and then a move draw exactly one segment, from the press to the
/// move, and leave a new path anchored at the move with the pointer still
/// down.
pub proof fn press_then_move_draws_one_segment(
    surface: SurfaceState,
    pressed: bool,
    from: PointerSample,
    to: PointerSample,
)
    ensures
        ({
            let events = seq![PointerEvent::Press(from), PointerEvent::Move(to)];
            let after = surface.perform_all(commands_for(pressed, events));
            &&& pressed_after(pressed, events)
            &&& after.ink == surface.ink.push(stroke_between(from, to))
            &&& after.anchored_at(to.position())
        }),
{
    let samples = seq![from, to];
    assert(pen_down(samples) =~= seq![PointerEvent::Press(from), PointerEvent::Move(to)]);
    pen_down_draws_polyline(surface, pressed, samples);
}

/// A press, a move and a release draw exactly two segments, from the press to
/// the move and from the move to the release, and leave the pointer up.
pub proof fn release_finalizes_and_clears(
    surface: SurfaceState,
    pressed: bool,
    from: PointerSample,
    via: PointerSample,
    to: PointerSample,
)
    ensures
        ({
            let events = seq![
                PointerEvent::Press(from),
                PointerEvent::Move(via),
                PointerEvent::Release(to),
            ];
            let after = surface.perform_all(commands_for(pressed, events));
            &&& !pressed_after(pressed, events)
            &&& after.ink == surface.ink.push(stroke_between(from, via)).push(
                stroke_between(via, to),
            )
        }),
{
    let samples = seq![from, via, to];
    assert(drag(samples) =~= seq![
        PointerEvent::Press(from),
        PointerEvent::Move(via),
        PointerEvent::Release(to),
    ]);
    drag_draws_polyline(surface, pressed, samples);
}

/// A second press in a row discards the anchor of the first: the surface is
/// as if only the second press had happened, and a move that follows draws
/// from the second press.
pub proof fn second_press_replaces_first(
    surface: SurfaceState,
    pressed: bool,
    first: PointerSample,
    second: PointerSample,
    to: PointerSample,
)
    ensures
        surface.perform_all(
            commands_for(pressed, seq![PointerEvent::Press(first), PointerEvent::Press(second)]),
        ) == surface.perform_all(commands_for(pressed, seq![PointerEvent::Press(second)])),
        ({
            let events = seq![
                PointerEvent::Press(first),
                PointerEvent::Press(second),
                PointerEvent::Move(to),
            ];
            let after = surface.perform_all(commands_for(pressed, events));
            &&& pressed_after(pressed, events)
            &&& after.ink == surface.ink.push(stroke_between(second, to))
            &&& after.anchored_at(to.position())
        }),
{
    let one = seq![PointerEvent::Press(first)];
    let two = one.push(PointerEvent::Press(second));
    let three = two.push(PointerEvent::Move(to));
    assert(two =~= seq![PointerEvent::Press(first), PointerEvent::Press(second)]);
    assert(three =~= seq![
        PointerEvent::Press(first),
        PointerEvent::Press(second),
        PointerEvent::Move(to),
    ]);
    let after_one = surface.perform_all(commands_for(pressed, one));
    let after_two = surface.perform_all(commands_for(pressed, two));

    replay_push(pressed, Seq::empty(), PointerEvent::Press(second));
    press_anchors_without_drawing(surface, second);

    replay_push(pressed, Seq::empty(), PointerEvent::Press(first));
    press_anchors_without_drawing(surface, first);

    replay_push(pressed, one, PointerEvent::Press(second));
    perform_all_concat(surface, commands_for(pressed, one), press_commands(second));
    press_anchors_without_drawing(after_one, second);

    replay_push(pressed, two, PointerEvent::Move(to));
    perform_all_concat(surface, commands_for(pressed, two), move_commands(true, to));
    move_while_down_commits_and_restarts(after_two, to);
}

} // verus!
