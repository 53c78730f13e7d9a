use birbgl::frame::{
    pause_nanos, Action, Direction, Effect, HeldKeys, Key, Viewer, WindowEvent, Zoom,
    PASSES_PER_SECOND,
};

const NONE_HELD: HeldKeys = HeldKeys {
    w: false,
    s: false,
    a: false,
    d: false,
    equal: false,
    minus: false,
    period: false,
    comma: false,
};

const SPACE: WindowEvent = WindowEvent::Key { key: Key::Space, action: Action::Press };
const ESCAPE: WindowEvent = WindowEvent::Key { key: Key::Escape, action: Action::Press };

#[test]
fn viewer_starts_running_with_thirty_iterations() {
    assert_eq!(Viewer::new(), Viewer { paused: false, rerender: true, iterations: 30, ticks: 0 });
}

#[test]
fn first_pass_advances_time_and_draws() {
    let mut viewer = Viewer::new();
    let effects = viewer.frame(&[], NONE_HELD);
    assert_eq!(effects, vec![Effect::AdvanceTime, Effect::Draw { ticks: 1, iterations: 30 }]);
    assert_eq!(viewer, Viewer { paused: false, rerender: false, iterations: 30, ticks: 1 });
}

#[test]
fn time_advances_one_tenth_per_running_pass() {
    let mut viewer = Viewer::new();
    for pass in 1..=10u64 {
        let effects = viewer.frame(&[], NONE_HELD);
        assert_eq!(effects.last(), Some(&Effect::Draw { ticks: pass, iterations: 30 }));
    }
    assert_eq!(viewer.ticks, 10);
}

#[test]
fn toggling_pause_twice_restores_state_and_time() {
    let mut viewer = Viewer { paused: false, rerender: false, iterations: 12, ticks: 77 };
    viewer.toggle_pause();
    assert!(viewer.paused);
    assert!(viewer.rerender);
    assert_eq!(viewer.ticks, 77);
    viewer.toggle_pause();
    assert!(!viewer.paused);
    assert_eq!(viewer.ticks, 77);
    assert_eq!(viewer.iterations, 12);
}

#[test]
fn two_pause_presses_in_one_pass_cancel() {
    let mut viewer = Viewer { paused: true, rerender: false, iterations: 30, ticks: 5 };
    let effects = viewer.frame(&[SPACE, SPACE], NONE_HELD);
    assert_eq!(effects, vec![Effect::Draw { ticks: 5, iterations: 30 }]);
    assert_eq!(viewer, Viewer { paused: true, rerender: false, iterations: 30, ticks: 5 });
}

#[test]
fn pausing_redraws_once_without_advancing_time() {
    let mut viewer = Viewer { paused: false, rerender: false, iterations: 30, ticks: 9 };
    let effects = viewer.frame(&[SPACE], NONE_HELD);
    assert_eq!(effects, vec![Effect::Draw { ticks: 9, iterations: 30 }]);
    assert!(viewer.paused);
    assert_eq!(viewer.ticks, 9);
    let effects = viewer.frame(&[], NONE_HELD);
    assert!(effects.is_empty());
    assert_eq!(viewer.ticks, 9);
}

#[test]
fn only_a_press_of_space_toggles_pause() {
    let mut viewer = Viewer::new();
    assert_eq!(viewer.handle_event(WindowEvent::Key { key: Key::Space, action: Action::Release }), None);
    assert_eq!(viewer.handle_event(WindowEvent::Key { key: Key::Space, action: Action::Repeat }), None);
    assert_eq!(viewer.handle_event(WindowEvent::Key { key: Key::W, action: Action::Press }), None);
    assert_eq!(viewer.handle_event(WindowEvent::Other), None);
    assert!(!viewer.paused);
    assert_eq!(viewer.handle_event(SPACE), None);
    assert!(viewer.paused);
}

#[test]
fn escape_press_asks_the_window_to_close() {
    let mut viewer = Viewer::new();
    assert_eq!(viewer.handle_event(ESCAPE), Some(Effect::Close));
    assert_eq!(
        viewer.handle_event(WindowEvent::Key { key: Key::Escape, action: Action::Release }),
        None
    );
    assert_eq!(viewer, Viewer::new());
}

#[test]
fn resize_sets_the_viewport_before_the_draw() {
    let mut viewer = Viewer::new();
    let events = [
        WindowEvent::Size { width: 640, height: 480 },
        WindowEvent::Other,
        WindowEvent::Size { width: 1280, height: 720 },
    ];
    let held = HeldKeys { w: true, ..NONE_HELD };
    let effects = viewer.frame(&events, held);
    assert_eq!(
        effects,
        vec![
            Effect::Viewport { width: 640, height: 480 },
            Effect::Viewport { width: 1280, height: 720 },
            Effect::TranslateY { direction: Direction::Positive },
            Effect::AdvanceTime,
            Effect::Draw { ticks: 1, iterations: 30 },
        ]
    );
    let draw = effects.iter().position(|effect| matches!(effect, Effect::Draw { .. })).unwrap();
    let last_viewport =
        effects.iter().rposition(|effect| matches!(effect, Effect::Viewport { .. })).unwrap();
    assert!(last_viewport < draw);
    assert_eq!(effects[last_viewport], Effect::Viewport { width: 1280, height: 720 });
}

#[test]
fn resize_while_idle_sets_the_viewport_without_drawing() {
    let mut viewer = Viewer { paused: true, rerender: false, iterations: 30, ticks: 3 };
    let effects = viewer.frame(&[WindowEvent::Size { width: 10, height: 20 }], NONE_HELD);
    assert_eq!(effects, vec![Effect::Viewport { width: 10, height: 20 }]);
    assert_eq!(viewer, Viewer { paused: true, rerender: false, iterations: 30, ticks: 3 });
}

#[test]
fn idle_pass_does_nothing() {
    let mut viewer = Viewer { paused: true, rerender: false, iterations: 30, ticks: 3 };
    let effects = viewer.frame(&[WindowEvent::Other], NONE_HELD);
    assert!(effects.is_empty());
    assert_eq!(viewer, Viewer { paused: true, rerender: false, iterations: 30, ticks: 3 });
}

#[test]
fn held_keys_move_the_camera_in_order() {
    let mut viewer = Viewer { paused: true, rerender: false, iterations: 30, ticks: 0 };
    let held = HeldKeys { s: true, d: true, minus: true, ..NONE_HELD };
    let effects = viewer.frame(&[], held);
    assert_eq!(
        effects,
        vec![
            Effect::TranslateY { direction: Direction::Negative },
            Effect::TranslateX { direction: Direction::Positive },
            Effect::Zoom { zoom: Zoom::Out },
            Effect::Draw { ticks: 0, iterations: 30 },
        ]
    );
    assert_eq!(viewer.ticks, 0);
    assert!(!viewer.rerender);
}

#[test]
fn first_named_key_wins_over_its_opposite() {
    let mut viewer = Viewer { paused: true, rerender: false, iterations: 30, ticks: 0 };
    let held = HeldKeys {
        w: true,
        s: true,
        a: true,
        d: true,
        equal: true,
        minus: true,
        period: true,
        comma: true,
    };
    let effects = viewer.frame(&[], held);
    assert_eq!(
        effects,
        vec![
            Effect::TranslateY { direction: Direction::Positive },
            Effect::TranslateX { direction: Direction::Negative },
            Effect::Zoom { zoom: Zoom::In },
            Effect::Draw { ticks: 0, iterations: 31 },
        ]
    );
    assert_eq!(viewer.iterations, 31);
}

#[test]
fn period_and_comma_change_the_iteration_count() {
    let mut viewer = Viewer::new();
    let mut effects = Vec::new();
    viewer.sample_keys(HeldKeys { period: true, ..NONE_HELD }, &mut effects);
    assert_eq!(viewer.iterations, 31);
    viewer.sample_keys(HeldKeys { comma: true, ..NONE_HELD }, &mut effects);
    viewer.sample_keys(HeldKeys { comma: true, ..NONE_HELD }, &mut effects);
    assert_eq!(viewer.iterations, 29);
    assert!(effects.is_empty());
    assert!(viewer.rerender);
}

#[test]
fn iteration_count_may_go_negative() {
    let mut viewer = Viewer { paused: true, rerender: false, iterations: 0, ticks: 0 };
    let effects = viewer.frame(&[], HeldKeys { comma: true, ..NONE_HELD });
    assert_eq!(effects, vec![Effect::Draw { ticks: 0, iterations: -1 }]);
}

#[test]
fn pass_at_the_edge_of_the_iteration_range_is_refused() {
    let mut viewer = Viewer { paused: true, rerender: false, iterations: i32::MAX, ticks: 0 };
    let up = HeldKeys { period: true, ..NONE_HELD };
    let down = HeldKeys { comma: true, ..NONE_HELD };
    assert!(!viewer.check_sample(up));
    assert!(viewer.check_sample(down));
    assert!(!viewer.check_run(&[], up));
    assert_eq!(viewer.try_frame(&[], up), None);
    assert_eq!(viewer.iterations, i32::MAX);
    assert_eq!(
        viewer.try_frame(&[], down),
        Some(vec![Effect::Draw { ticks: 0, iterations: i32::MAX - 1 }])
    );
    let mut low = Viewer { paused: true, rerender: false, iterations: i32::MIN, ticks: 0 };
    assert!(!low.check_sample(down));
    assert!(low.check_sample(HeldKeys { period: true, comma: true, ..NONE_HELD }));
    assert_eq!(low.try_frame(&[], down), None);
}

#[test]
fn pass_at_the_edge_of_the_time_range_is_refused_only_while_running() {
    let mut viewer = Viewer { paused: false, rerender: false, iterations: 30, ticks: u64::MAX };
    assert!(!viewer.check_run(&[], NONE_HELD));
    assert_eq!(viewer.try_frame(&[], NONE_HELD), None);
    assert!(viewer.check_run(&[SPACE], NONE_HELD));
    assert_eq!(
        viewer.try_frame(&[SPACE], NONE_HELD),
        Some(vec![Effect::Draw { ticks: u64::MAX, iterations: 30 }])
    );
    assert!(viewer.paused);
}

#[test]
fn render_clears_the_call_for_a_new_picture() {
    let mut viewer = Viewer { paused: true, rerender: true, iterations: 4, ticks: 2 };
    let mut effects = vec![Effect::Close];
    viewer.render(&mut effects);
    assert_eq!(effects, vec![Effect::Close, Effect::Draw { ticks: 2, iterations: 4 }]);
    assert!(!viewer.rerender);
    viewer.render(&mut effects);
    assert_eq!(effects.len(), 2);
}

#[test]
fn handle_events_appends_effects_in_order() {
    let mut viewer = Viewer::new();
    let mut effects = vec![Effect::AdvanceTime];
    viewer.handle_events(
        &[ESCAPE, SPACE, WindowEvent::Size { width: 1, height: 2 }, SPACE, SPACE],
        &mut effects,
    );
    assert_eq!(
        effects,
        vec![Effect::AdvanceTime, Effect::Close, Effect::Viewport { width: 1, height: 2 }]
    );
    assert!(viewer.paused);
    assert!(viewer.rerender);
    assert_eq!(viewer.ticks, 0);
}

#[test]
fn pause_is_a_sixtieth_of_a_second() {
    assert_eq!(PASSES_PER_SECOND, 60);
    assert_eq!(pause_nanos(), 16_666_666);
    assert_eq!(pause_nanos(), 1_000_000_000u32 / 60);
}
