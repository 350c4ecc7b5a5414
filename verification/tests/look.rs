use fps_controller::look::{LookState, PI_FP, TWO_PI_FP, PITCH_LIMIT, wrap_yaw, clamp_pitch_exec};
use fps_controller::fixed::UNIT;
use fps_controller::vec::Vec2;

#[test]
fn yaw_turns_by_scaled_motion() {
    // A motion of 100 counts under sensitivity 1.0 turns the yaw by
    // exactly -0.01 radians (-10_000 in fixed point).
    let mut s = LookState::level();
    s.on_mouse_motion(Vec2::new(100, 0), UNIT);
    assert_eq!(s.yaw, -10_000);
    assert_eq!(s.pitch, 0);
}

#[test]
fn sensitivity_scales_the_turn() {
    let mut s = LookState::level();
    s.on_mouse_motion(Vec2::new(100, 0), 2 * UNIT);
    assert_eq!(s.yaw, -20_000);
}

#[test]
fn pitch_clamped_after_one_huge_sample() {
    // A single sample large enough to swing far past the range still lands
    // exactly on the clamp bound.
    let mut s = LookState::level();
    s.on_mouse_motion(Vec2::new(0, 100_000_000), UNIT);
    assert_eq!(s.pitch, -PITCH_LIMIT);
    s.on_mouse_motion(Vec2::new(0, -100_000_000), UNIT);
    assert_eq!(s.pitch, PITCH_LIMIT);
}

#[test]
fn pitch_stays_in_range_over_any_sequence() {
    let samples: Vec<(i64, i64)> = vec![
        (0, 50_000_000),
        (1_000, -99_999_999),
        (-37, 3),
        (0, 100_000_000),
        (250, -250),
        (0, 0),
    ];
    let mut s = LookState::level();
    for (dx, dy) in samples {
        s.on_mouse_motion(Vec2::new(dx, dy), 777_000);
        assert!(-PITCH_LIMIT <= s.pitch && s.pitch <= PITCH_LIMIT);
        assert!(-PI_FP <= s.yaw && s.yaw < PI_FP);
    }
}

#[test]
fn zero_motion_is_a_noop() {
    let mut s = LookState::from_angles(1_234_567, -300_000);
    let before = s;
    s.on_mouse_motion(Vec2::new(0, 0), UNIT);
    assert_eq!(s, before);
}

#[test]
fn from_angles_wraps_and_clamps() {
    let s = LookState::from_angles(TWO_PI_FP + 5, 2_000_000);
    assert_eq!(s.yaw, 5);
    assert_eq!(s.pitch, PITCH_LIMIT);
    let t = LookState::from_angles(-TWO_PI_FP - 7, -2_000_000);
    assert_eq!(t.yaw, -7);
    assert_eq!(t.pitch, -PITCH_LIMIT);
}

#[test]
fn wrap_reduces_to_one_turn() {
    assert_eq!(wrap_yaw(0), 0);
    assert_eq!(wrap_yaw(PI_FP), -PI_FP);
    assert_eq!(wrap_yaw(-PI_FP), -PI_FP);
    assert_eq!(wrap_yaw(TWO_PI_FP), 0);
    assert_eq!(wrap_yaw(3 * TWO_PI_FP + 42), 42);
}

#[test]
fn clamp_is_absolute_and_idempotent() {
    assert_eq!(clamp_pitch_exec(10_000_000_000), PITCH_LIMIT);
    assert_eq!(clamp_pitch_exec(-10_000_000_000), -PITCH_LIMIT);
    assert_eq!(clamp_pitch_exec(123), 123);
    assert_eq!(clamp_pitch_exec(clamp_pitch_exec(10_000_000_000)), PITCH_LIMIT);
}
