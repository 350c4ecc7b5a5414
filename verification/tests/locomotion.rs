use fps_controller::basis::Basis;
use fps_controller::fixed::UNIT;
use fps_controller::locomotion::{MoveConfig, move_toward_zero};
use fps_controller::sqrt::{isqrt_floor, isqrt_ceil};
use fps_controller::vec::{Vec2, Vec3};

const GRAVITY: Vec3 = Vec3 { x: 0, y: -9_800_000, z: 0 };

fn cfg() -> MoveConfig {
    MoveConfig::new(4_000_000, 5_000_000)
}

#[test]
fn forward_steer_snaps_to_full_speed() {
    // Identity heading, forward input, speed 5.0: horizontal velocity is
    // exactly (0, _, 5.0) after one tick, whatever dt is.
    let b = Basis::identity();
    for dt in [1, 16_000, 100_000, 10_000_000] {
        let r = cfg().tick(dt, Vec2::new(0, UNIT), true, false, GRAVITY, Vec3::new(0, 0, 0), &b);
        assert_eq!(r, Vec3::new(0, 0, 5_000_000));
    }
}

#[test]
fn diagonal_steer_never_exceeds_speed() {
    let b = Basis::identity();
    let r = cfg().tick(16_000, Vec2::new(UNIT, UNIT), true, false, GRAVITY, Vec3::new(0, 0, 0), &b);
    assert_eq!(r.x, 3_535_532);
    assert_eq!(r.z, 3_535_532);
    assert!(r.x * r.x + r.z * r.z <= 5_000_000i64 * 5_000_000);
}

#[test]
fn steered_speed_bounded_for_many_inputs() {
    let b = Basis::identity();
    let speed: i64 = 5_000_000;
    let inputs: Vec<(i64, i64)> = vec![
        (UNIT, 0),
        (0, -UNIT),
        (UNIT, UNIT),
        (-UNIT, UNIT),
        (707_107, -707_107),
        (1, 1),
        (999_999, 3),
    ];
    for (x, y) in inputs {
        let r = cfg().tick(16_000, Vec2::new(x, y), true, false, GRAVITY, Vec3::new(9, 9, 9), &b);
        assert!(r.x * r.x + r.z * r.z <= speed * speed);
    }
}

#[test]
fn jump_overwrites_falling_speed() {
    // Falling at -5.0, a grounded jump lands exactly on the jump force,
    // not on jump force minus 5.
    let b = Basis::identity();
    let r = cfg().tick(16_000, Vec2::new(0, 0), true, true, GRAVITY, Vec3::new(0, -5_000_000, 0), &b);
    assert_eq!(r.y, 4_000_000);
}

#[test]
fn jump_needs_ground_contact() {
    let b = Basis::identity();
    let r = cfg().tick(100_000, Vec2::new(0, 0), false, true, GRAVITY, Vec3::new(0, -5_000_000, 0), &b);
    // Airborne: the jump request is ignored and gravity accumulates.
    assert_eq!(r.y, -5_000_000 + -980_000);
}

#[test]
fn gravity_accumulates_linearly() {
    // Airborne for five ticks of 0.1 s under gravity -9.8: the vertical
    // velocity is exactly 5 * (-0.98) = -4.9.
    let b = Basis::identity();
    let mut v = Vec3::new(0, 0, 0);
    for i in 1..=5i64 {
        v = cfg().tick(100_000, Vec2::new(0, 0), false, false, GRAVITY, v, &b);
        assert_eq!(v.y, i * -980_000);
    }
    assert_eq!(v.y, -4_900_000);
}

#[test]
fn decay_reaches_zero_without_overshoot() {
    // Step is speed * dt = 0.5 per tick; a horizontal speed of 1.6 shrinks
    // strictly each tick and is exactly zero after ceil(1.6 / 0.5) = 4
    // ticks, never crossing zero.
    let b = Basis::identity();
    let mut v = Vec3::new(1_600_000, 0, -1_600_000);
    let mut previous: i64 = v.x;
    for _ in 0..4 {
        v = cfg().tick(100_000, Vec2::new(0, 0), true, false, GRAVITY, v, &b);
        assert!(v.x.abs() < previous.abs());
        assert!(v.x >= 0);
        assert!(v.z <= 0);
        assert_eq!(v.x, -v.z);
        previous = v.x;
    }
    assert_eq!(v, Vec3::new(0, 0, 0));
}

#[test]
fn decay_single_tick_values() {
    let b = Basis::identity();
    let r = cfg().tick(100_000, Vec2::new(0, 0), true, false, GRAVITY, Vec3::new(300_000, 0, -700_000), &b);
    // 0.3 is within one step (0.5) of zero; -0.7 moves by exactly one step.
    assert_eq!(r.x, 0);
    assert_eq!(r.z, -200_000);
}

#[test]
fn degenerate_direction_decays_instead_of_steering() {
    // Heading pitched a quarter turn down: forward input rotates to a
    // purely vertical direction, whose horizontal projection is zero, so
    // the tick decays instead of dividing by a zero-length direction.
    let b = Basis::new(
        Vec3::new(UNIT, 0, 0),
        Vec3::new(0, 0, -UNIT),
        Vec3::new(0, UNIT, 0),
    );
    let r = cfg().tick(100_000, Vec2::new(0, UNIT), true, false, GRAVITY, Vec3::new(1_000_000, 0, 0), &b);
    assert_eq!(r.x, 500_000);
    assert_eq!(r.z, 0);
}

#[test]
fn heading_rotates_steering_into_world_space() {
    // Heading turned so that world X is the actor's forward: row x is
    // (0, 0, 1), row z is (-1, 0, 0) (a quarter turn about the vertical).
    let b = Basis::new(
        Vec3::new(0, 0, UNIT),
        Vec3::new(0, UNIT, 0),
        Vec3::new(-UNIT, 0, 0),
    );
    let r = cfg().tick(16_000, Vec2::new(0, UNIT), true, false, GRAVITY, Vec3::new(0, 0, 0), &b);
    assert_eq!(r, Vec3::new(5_000_000, 0, 0));
}

#[test]
fn try_new_accepts_exactly_the_valid_ranges() {
    let ok = MoveConfig::try_new(4_000_000, 5_000_000);
    assert_eq!(ok, Some(MoveConfig { jump_force: 4_000_000, speed: 5_000_000 }));
    assert_eq!(MoveConfig::try_new(4_000_000, -1), None);
    assert_eq!(MoveConfig::try_new(4_000_000, 1_000_000_001), None);
    assert_eq!(MoveConfig::try_new(1_000_000_001, 5_000_000), None);
    assert_eq!(MoveConfig::try_new(-1_000_000_001, 5_000_000), None);
    assert_eq!(MoveConfig::try_new(-1_000_000_000, 0), Some(MoveConfig { jump_force: -1_000_000_000, speed: 0 }));
}

#[test]
fn move_toward_zero_edges() {
    assert_eq!(move_toward_zero(500_000, 500_000), 0);
    assert_eq!(move_toward_zero(-500_000, 500_000), 0);
    assert_eq!(move_toward_zero(500_001, 500_000), 1);
    assert_eq!(move_toward_zero(0, 500_000), 0);
    assert_eq!(move_toward_zero(7, 0), 7);
}

#[test]
fn integer_square_roots_bracket() {
    assert_eq!(isqrt_floor(0), 0);
    assert_eq!(isqrt_ceil(0), 0);
    assert_eq!(isqrt_floor(1_000_000_000_000), 1_000_000);
    assert_eq!(isqrt_ceil(1_000_000_000_000), 1_000_000);
    assert_eq!(isqrt_floor(2_000_000_000_000), 1_414_213);
    assert_eq!(isqrt_ceil(2_000_000_000_000), 1_414_214);
}
