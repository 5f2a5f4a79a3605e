use hud_rings::animation::AnimationState;
use hud_rings::animation::COUNTER_BOUND;
use hud_rings::animation::ROTATION_WRAP_MICRO;
use hud_rings::animation::SCALE_BASE_MICRO;

#[test]
fn initial_state_defaults() {
    let s = AnimationState::new();
    assert_eq!(s.phase_micro, 0);
    assert_eq!(s.counter, 0);
    assert_eq!(s.direction, 1);
    assert!(!s.is_recording);
    assert_eq!(s.rotation_micro, 0);
    assert_eq!(s.scale_micro, SCALE_BASE_MICRO);
}

#[test]
fn idle_ping_pong_reaches_bound_and_returns() {
    let start = AnimationState::new();
    let mut s = start;
    for _ in 0..300 {
        s.advance();
    }
    assert_eq!(s.counter, COUNTER_BOUND);
    assert_eq!(s.direction, -1);
    for _ in 300..600 {
        s.advance();
    }
    // the motion is exactly periodic with period 600
    assert_eq!(s, start);
    s.advance();
    assert_eq!(s.counter, 1);
    assert_eq!(s.direction, 1);
}

#[test]
fn idle_scale_and_phase_track_counter() {
    let mut s = AnimationState::new();
    for _ in 0..137 {
        s.advance();
    }
    assert_eq!(s.counter, 137);
    assert_eq!(s.phase_micro, 137 * 100);
    assert_eq!(s.scale_micro, SCALE_BASE_MICRO + 137 * 1_000);
    for _ in 137..450 {
        s.advance();
    }
    // 450 frames in: 150 frames past the bound, walking back down
    assert_eq!(s.counter, 150);
    assert_eq!(s.direction, -1);
    assert_eq!(s.phase_micro, 150 * 100);
    assert_eq!(s.scale_micro, SCALE_BASE_MICRO + 150 * 1_000);
}

#[test]
fn toggle_record_twice_restores_flag_and_resets() {
    let mut s = AnimationState::new();
    for _ in 0..57 {
        s.advance();
    }
    assert!(s.counter != 0);

    s.toggle_record();
    assert!(s.is_recording);
    assert_eq!(s.counter, 0);
    assert_eq!(s.direction, 1);
    assert_eq!(s.rotation_micro, 0);
    assert_eq!(s.scale_micro, SCALE_BASE_MICRO);
    assert_eq!(s.phase_micro, 0);

    for _ in 0..23 {
        s.advance();
    }
    s.toggle_record();
    assert!(!s.is_recording);
    assert_eq!(s.counter, 0);
    assert_eq!(s.direction, 1);
    assert_eq!(s.rotation_micro, 0);
    assert_eq!(s.scale_micro, SCALE_BASE_MICRO);
    assert_eq!(s.phase_micro, 0);
}

#[test]
fn recording_rotation_grows_and_wraps() {
    let mut s = AnimationState::new();
    s.toggle_record();
    for k in 1..=4189i64 {
        s.advance();
        assert_eq!(s.rotation_micro, k * 30_000);
    }
    assert!(s.rotation_micro >= ROTATION_WRAP_MICRO);
    // the next frame wraps to zero before stepping
    s.advance();
    assert_eq!(s.rotation_micro, 30_000);
    // recording leaves the idle parameters untouched
    assert_eq!(s.counter, 0);
    assert_eq!(s.phase_micro, 0);
    assert_eq!(s.scale_micro, SCALE_BASE_MICRO);
}

#[test]
fn recording_flips_direction_on_parked_counter() {
    let mut s = AnimationState::new();
    s.toggle_record();
    s.advance();
    assert_eq!(s.counter, 0);
    assert_eq!(s.direction, -1);
    s.advance();
    assert_eq!(s.direction, 1);
}

#[test]
fn params_copies_the_bundle() {
    let mut s = AnimationState::new();
    for _ in 0..42 {
        s.advance();
    }
    let p = s.params();
    assert_eq!(p.phase_micro, s.phase_micro);
    assert_eq!(p.rotation_micro, s.rotation_micro);
    assert_eq!(p.scale_micro, s.scale_micro);
    assert_eq!(p.is_recording, s.is_recording);
}
