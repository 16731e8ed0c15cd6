use pixel_engine::animation::AnimationSystem;

#[test]
fn initially_returns_first_frame() {
    let mut animation_system = AnimationSystem::new();
    let frame_periods_ms = [0, 100];
    let (from, to) = (0, 1);
    let animation_id = animation_system.add_animation(from, to, &frame_periods_ms);

    let frame = animation_system.current_frame(animation_id);

    assert_eq!(frame, 0);
}

#[test]
fn when_frame_period_elapsed_then_next_frame_is_selected() {
    let mut animation_system = AnimationSystem::new();
    let frame_periods_ms = [100, 100];
    let (from, to) = (1, 2);
    let animation_id = animation_system.add_animation(from, to, &frame_periods_ms);

    let delta_time_ms = 100;
    animation_system.start_animation(animation_id);
    animation_system.update(delta_time_ms);
    let frame = animation_system.current_frame(animation_id);

    assert_eq!(frame, 2);
}

#[test]
fn when_elapsed_time_exceeds_period_time_then_playback_wraps_around() {
    let mut animation_system = AnimationSystem::new();
    let (from, to) = (1, 4);
    let frame_periods_ms = [100, 100, 100, 100];
    let animation_id = animation_system.add_animation(from, to, &frame_periods_ms);

    let delta_time_ms = 400;
    animation_system.start_animation(animation_id);
    animation_system.update(delta_time_ms);
    let frame = animation_system.current_frame(animation_id);

    assert_eq!(frame, 1);
}

#[test]
fn if_playback_stopped_when_frame_period_elapsed_then_same_frame_is_selected() {
    let mut animation_system = AnimationSystem::new();
    let (from, to) = (1, 2);
    let frame_periods_ms = [100, 100];
    let animation_id = animation_system.add_animation(from, to, &frame_periods_ms);

    let delta_time_ms = 100;
    animation_system.start_animation(animation_id);
    animation_system.stop_animation(animation_id);
    animation_system.update(delta_time_ms);
    let frame = animation_system.current_frame(animation_id);

    assert_eq!(frame, 1);
}

#[test]
fn frames_can_be_manually_incremented() {
    let mut animation_system = AnimationSystem::new();
    let frame_periods_ms = [100, 100];
    let (from, to) = (1, 2);
    let animation_id = animation_system.add_animation(from, to, &frame_periods_ms);

    animation_system.step_to_next_frame(animation_id);
    let frame = animation_system.current_frame(animation_id);

    assert_eq!(frame, 2);
}

#[test]
fn step_to_next_frame_wraps_around() {
    let mut animation_system = AnimationSystem::new();
    let frame_periods_ms = [100, 100, 100];
    let (from, to) = (0, 2);
    let animation_id = animation_system.add_animation(from, to, &frame_periods_ms);

    animation_system.step_to_next_frame(animation_id); // -> 1
    animation_system.step_to_next_frame(animation_id); // -> 2
    animation_system.step_to_next_frame(animation_id); // -> 0
    let frame = animation_system.current_frame(animation_id);

    assert_eq!(frame, 0);
}

#[test]
fn reloading_animation_resets_current_frame_to_from_value() {
    let (from, to) = (3, 4);
    let frame_periods_ms = [100, 100];
    let mut animation_system = AnimationSystem::new();
    let animation_id = animation_system.add_animation(from, to, &frame_periods_ms);

    animation_system.step_to_next_frame(animation_id);
    animation_system.reload_animation(animation_id, from, to, &frame_periods_ms);
    let frame = animation_system.current_frame(animation_id);

    assert_eq!(frame, 3);
}

#[test]
fn reloading_animation_can_use_new_frames() {
    let (from, to) = (0, 1);
    let frame_periods_ms = [100, 100];
    let mut animation_system = AnimationSystem::new();
    let animation_id = animation_system.add_animation(from, to, &frame_periods_ms);

    let (from, to) = (2, 4);
    let frame_periods_ms = [100, 100, 100];
    animation_system.reload_animation(animation_id, from, to, &frame_periods_ms);
    animation_system.step_to_next_frame(animation_id); // 2 -> 3
    let frame = animation_system.current_frame(animation_id);

    assert_eq!(frame, 3);
}

#[test]
fn frame_selection_is_time_monotonic_within_a_cycle() {
    let mut animation_system = AnimationSystem::new();
    let frame_periods_ms = [100, 100, 100, 100];
    let animation_id = animation_system.add_animation(0, 3, &frame_periods_ms);

    animation_system.start_animation(animation_id);
    animation_system.update(50);
    assert_eq!(animation_system.current_frame(animation_id), 0);

    animation_system.update(60); // cumulative 110 ms
    assert_eq!(animation_system.current_frame(animation_id), 1);
}

#[test]
fn wraparound_keeps_playback_position_within_cycle() {
    let mut animation_system = AnimationSystem::new();
    let frame_periods_ms = [100, 100, 100];
    let animation_id = animation_system.add_animation(0, 2, &frame_periods_ms);

    animation_system.start_animation(animation_id);
    animation_system.update(400); // total length is 300
    assert_eq!(animation_system.playback_pos_ms(animation_id), 100);
    assert_eq!(animation_system.current_frame(animation_id), 1);
}

#[test]
fn stopped_animations_are_time_invariant() {
    let mut animation_system = AnimationSystem::new();
    let frame_periods_ms = [100, 100, 100];
    let animation_id = animation_system.add_animation(0, 2, &frame_periods_ms);

    animation_system.start_animation(animation_id);
    animation_system.update(150);
    let frame = animation_system.current_frame(animation_id);
    let pos = animation_system.playback_pos_ms(animation_id);

    animation_system.stop_animation(animation_id);
    animation_system.update(123_456);
    assert_eq!(animation_system.current_frame(animation_id), frame);
    assert_eq!(animation_system.playback_pos_ms(animation_id), pos);
}

#[test]
fn reload_resets_and_requires_explicit_resume() {
    let mut animation_system = AnimationSystem::new();
    let animation_id = animation_system.add_animation(0, 1, &[100, 100]);
    animation_system.start_animation(animation_id);
    animation_system.update(150);

    animation_system.reload_animation(animation_id, 2, 4, &[50, 50, 50]);
    assert_eq!(animation_system.current_frame(animation_id), 2);
    assert_eq!(animation_system.playback_pos_ms(animation_id), 0);
    assert!(!animation_system.is_playing(animation_id));

    animation_system.restart_animation(animation_id);
    assert!(animation_system.is_playing(animation_id));
}

#[test]
fn zero_duration_first_frame_is_skipped_once_elapsed() {
    let mut animation_system = AnimationSystem::new();
    let animation_id = animation_system.add_animation(0, 1, &[0, 100]);

    animation_system.start_animation(animation_id);
    animation_system.update(1);
    assert_eq!(animation_system.current_frame(animation_id), 1);
}

#[test]
fn zero_length_cycle_never_advances() {
    let mut animation_system = AnimationSystem::new();
    // a single frame of zero duration: the cycle has no length to advance in
    let animation_id = animation_system.add_animation(0, 0, &[0]);

    animation_system.start_animation(animation_id);
    animation_system.update(50);
    assert_eq!(animation_system.current_frame(animation_id), 0);
    assert_eq!(animation_system.playback_pos_ms(animation_id), 0);
}
