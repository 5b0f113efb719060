use sketchpad::{DrawCommand, Point, PointerEvent, PointerSample, StrokeController};

#[test]
fn new_controller_is_up() {
    let controller = StrokeController::new();
    assert!(!controller.is_pressed());
}

#[test]
fn press_issues_begin_and_move_only() {
    let mut controller = StrokeController::new();
    let commands = controller.on_press(PointerSample::new(10, 20));
    assert!(controller.is_pressed());
    assert_eq!(
        commands,
        vec![DrawCommand::BeginPath, DrawCommand::MoveTo(Point::new(10, 20))]
    );
    assert!(!commands.contains(&DrawCommand::Stroke));
}

#[test]
fn move_while_up_issues_nothing() {
    let mut controller = StrokeController::new();
    let commands = controller.on_move(PointerSample::new(50, 50));
    assert!(commands.is_empty());
    assert!(!controller.is_pressed());
}

#[test]
fn move_while_down_issues_line_stroke_begin_move() {
    let mut controller = StrokeController::new();
    controller.on_press(PointerSample::new(0, 0));
    let commands = controller.on_move(PointerSample::new(5, 5));
    assert_eq!(
        commands,
        vec![
            DrawCommand::LineTo(Point::new(5, 5)),
            DrawCommand::Stroke,
            DrawCommand::BeginPath,
            DrawCommand::MoveTo(Point::new(5, 5)),
        ]
    );
    assert!(controller.is_pressed());
}

#[test]
fn release_issues_line_and_stroke_and_clears_flag() {
    let mut controller = StrokeController::new();
    controller.on_press(PointerSample::new(0, 0));
    let commands = controller.on_release(PointerSample::new(9, 9));
    assert_eq!(
        commands,
        vec![DrawCommand::LineTo(Point::new(9, 9)), DrawCommand::Stroke]
    );
    assert!(!controller.is_pressed());
}

#[test]
fn release_while_up_still_issues_line_and_stroke() {
    let mut controller = StrokeController::new();
    let commands = controller.on_release(PointerSample::new(3, 4));
    assert_eq!(
        commands,
        vec![DrawCommand::LineTo(Point::new(3, 4)), DrawCommand::Stroke]
    );
    assert!(!controller.is_pressed());
}

#[test]
fn press_while_down_keeps_flag_and_moves_anchor() {
    let mut controller = StrokeController::new();
    controller.on_press(PointerSample::new(1, 1));
    let commands = controller.on_press(PointerSample::new(2, 2));
    assert!(controller.is_pressed());
    assert_eq!(
        commands,
        vec![DrawCommand::BeginPath, DrawCommand::MoveTo(Point::new(2, 2))]
    );
}

#[test]
fn move_after_release_issues_nothing() {
    let mut controller = StrokeController::new();
    controller.on_press(PointerSample::new(0, 0));
    controller.on_release(PointerSample::new(1, 1));
    assert!(controller.on_move(PointerSample::new(2, 2)).is_empty());
    assert!(!controller.is_pressed());
}

#[test]
fn coordinates_pass_through_unchanged_at_the_extremes() {
    let mut controller = StrokeController::new();
    let pressed = controller.on_press(PointerSample::new(i32::MIN, i32::MAX));
    assert_eq!(pressed[1], DrawCommand::MoveTo(Point::new(i32::MIN, i32::MAX)));
    let moved = controller.on_move(PointerSample::new(-7, 0));
    assert_eq!(moved[0], DrawCommand::LineTo(Point::new(-7, 0)));
    assert_eq!(moved[3], DrawCommand::MoveTo(Point::new(-7, 0)));
    let released = controller.on_release(PointerSample::new(i32::MAX, i32::MIN));
    assert_eq!(released[0], DrawCommand::LineTo(Point::new(i32::MAX, i32::MIN)));
}

#[test]
fn handle_matches_the_three_reactions() {
    let samples = [PointerSample::new(4, 8), PointerSample::new(-1, 3)];
    for start_down in [false, true] {
        for sample in samples {
            let mut direct = StrokeController::new();
            let mut routed = StrokeController::new();
            if start_down {
                direct.on_press(PointerSample::new(0, 0));
                routed.on_press(PointerSample::new(0, 0));
            }
            assert_eq!(routed.handle(PointerEvent::Press(sample)), direct.on_press(sample));
            assert_eq!(routed.is_pressed(), direct.is_pressed());
            assert_eq!(routed.handle(PointerEvent::Move(sample)), direct.on_move(sample));
            assert_eq!(routed.is_pressed(), direct.is_pressed());
            assert_eq!(routed.handle(PointerEvent::Release(sample)), direct.on_release(sample));
            assert_eq!(routed.is_pressed(), direct.is_pressed());
            assert_eq!(routed.handle(PointerEvent::Move(sample)), direct.on_move(sample));
            assert_eq!(routed.is_pressed(), direct.is_pressed());
        }
    }
}

#[test]
fn replay_of_no_events_issues_nothing() {
    let mut controller = StrokeController::new();
    assert!(controller.replay(&vec![]).is_empty());
    assert!(!controller.is_pressed());
    controller.on_press(PointerSample::new(1, 1));
    assert!(controller.replay(&vec![]).is_empty());
    assert!(controller.is_pressed());
}

#[test]
fn replay_concatenates_the_reactions_in_order() {
    let events = vec![
        PointerEvent::Move(PointerSample::new(1, 1)),
        PointerEvent::Press(PointerSample::new(2, 2)),
        PointerEvent::Move(PointerSample::new(3, 3)),
        PointerEvent::Release(PointerSample::new(4, 4)),
        PointerEvent::Move(PointerSample::new(5, 5)),
    ];
    let mut controller = StrokeController::new();
    let commands = controller.replay(&events);
    assert_eq!(
        commands,
        vec![
            DrawCommand::BeginPath,
            DrawCommand::MoveTo(Point::new(2, 2)),
            DrawCommand::LineTo(Point::new(3, 3)),
            DrawCommand::Stroke,
            DrawCommand::BeginPath,
            DrawCommand::MoveTo(Point::new(3, 3)),
            DrawCommand::LineTo(Point::new(4, 4)),
            DrawCommand::Stroke,
        ]
    );
    assert!(!controller.is_pressed());

    let mut stepwise = StrokeController::new();
    let mut expected = Vec::new();
    for event in &events {
        expected.extend(stepwise.handle(*event));
    }
    assert_eq!(commands, expected);
}

#[test]
fn replay_can_end_with_the_pointer_down() {
    let mut controller = StrokeController::new();
    controller.replay(&vec![
        PointerEvent::Press(PointerSample::new(0, 0)),
        PointerEvent::Move(PointerSample::new(1, 0)),
    ]);
    assert!(controller.is_pressed());
}

#[test]
fn sample_position_and_event_sample() {
    let sample = PointerSample::new(-3, 12);
    assert_eq!(sample.x, -3);
    assert_eq!(sample.y, 12);
    assert_eq!(sample.position(), Point::new(-3, 12));
    assert_eq!(PointerEvent::Press(sample).sample(), sample);
    assert_eq!(PointerEvent::Move(sample).sample(), sample);
    assert_eq!(PointerEvent::Release(sample).sample(), sample);
    assert_ne!(sample.position(), Point::new(12, -3));
}
