//! Laws of the controller, proved once for every input.
//!
//! Each proof function here states a behaviour of the controller across
//! calls: how horizontal speed decays over repeated no-steering ticks, how
//! gravity accumulates over airborne ticks, and why the absolute pitch
//! clamp cannot drift.

use vstd::prelude::*;
use vstd::math::abs;
use crate::fixed::fmul;
use crate::vec::{Vec2, Vec3};
use crate::basis::Basis;
use crate::look::{PI_FP, TWO_PI_FP, wrap_angle, clamp_pitch, look_delta, LookState};
use crate::locomotion::{
    MoveConfig, move_toward_zero_spec, vertical_next, tick_spec, is_steering,
};

verus! {

/// A horizontal velocity component after `n` no-steering ticks, each
/// decaying by at most `step`.
pub open spec fn decay_iter(v: int, step: int, n: nat) -> int
    decreases n,
{
    if n == 0 {
        v
    } else {
        decay_iter(move_toward_zero_spec(v, step), step, (n - 1) as nat)
    }
}

/// The vertical velocity after `n` airborne ticks (not grounded, no jump)
/// under constant gravity `gy` and tick duration `dt`.
pub open spec fn fall_iter(vy: int, gy: int, dt: int, n: nat) -> int
    decreases n,
{
    if n == 0 {
        vy
    } else {
        fall_iter(vertical_next(vy, gy, dt, false, false, 0), gy, dt, (n - 1) as nat)
    }
}

/// With no steering and a positive decay step, one tick strictly shrinks a
/// non-zero horizontal component and never drives it past zero.
pub proof fn lemma_decay_strict(v: int, step: int)
    requires
        0 < step,
        v != 0,
    ensures
        abs(move_toward_zero_spec(v, step)) < abs(v),
        v > 0 ==> 0 <= move_toward_zero_spec(v, step) < v,
        v < 0 ==> v < move_toward_zero_spec(v, step) <= 0,
{
}

/// A component at rest stays exactly at rest, tick after tick.
pub proof fn lemma_decay_rest(step: int, n: nat)
    requires
        0 <= step,
    ensures
        decay_iter(0, step, n) == 0,
    decreases n,
{
    if n > 0 {
        lemma_decay_rest(step, (n - 1) as nat);
    }
}

/// A horizontal component of magnitude at most `n * step` has decayed to
/// exactly zero after `n` no-steering ticks: the decay converges in
/// finitely many ticks and cannot creep.
pub proof fn lemma_decay_reaches_zero(v: int, step: int, n: nat)
    requires
        0 < step,
        abs(v) <= n * step,
    ensures
        decay_iter(v, step, n) == 0,
    decreases n,
{
    if n == 0 {
        assert(0 * step == 0) by (nonlinear_arith);
        assert(v == 0);
    } else {
        let v1 = move_toward_zero_spec(v, step);
        if abs(v) <= step {
            lemma_decay_rest(step, (n - 1) as nat);
        } else {
            assert(abs(v1) as int <= (n - 1) * step) by (nonlinear_arith)
                requires
                    abs(v) <= n * step,
                    step < abs(v),
                    abs(v1) == abs(v) - step,
                    1 <= n,
            ;
            lemma_decay_reaches_zero(v1, step, (n - 1) as nat);
        }
    }
}

/// With zero steering input a tick does not steer, whatever the heading:
/// its horizontal components are exactly one decay step of the incoming
/// ones, with step `speed * dt`.
pub proof fn lemma_zero_input_tick(
    cfg: MoveConfig,
    dt: int,
    grounded: bool,
    jump: bool,
    gravity: Vec3,
    velocity: Vec3,
    heading: Basis,
)
    ensures
        !is_steering(heading, Vec2 { x: 0, y: 0 }),
        tick_spec(cfg, dt, Vec2 { x: 0, y: 0 }, grounded, jump, gravity, velocity, heading).0
            == move_toward_zero_spec(velocity.x as int, fmul(cfg.speed as int, dt)),
        tick_spec(cfg, dt, Vec2 { x: 0, y: 0 }, grounded, jump, gravity, velocity, heading).2
            == move_toward_zero_spec(velocity.z as int, fmul(cfg.speed as int, dt)),
{
    let v0 = Vec3 { x: 0, y: 0, z: 0 };
    assert(heading.xx * v0.x + heading.xy * v0.y + heading.xz * v0.z == 0) by (nonlinear_arith)
        requires
            v0.x == 0 && v0.y == 0 && v0.z == 0,
    ;
    assert(heading.zx * v0.x + heading.zy * v0.y + heading.zz * v0.z == 0) by (nonlinear_arith)
        requires
            v0.x == 0 && v0.y == 0 && v0.z == 0,
    ;
}

/// Gravity accumulates linearly: after `n` airborne ticks with no jump,
/// the vertical velocity is exactly the initial one plus `n` times the
/// per-tick gravity increment `gy * dt`.
pub proof fn lemma_airborne_linear(vy: int, gy: int, dt: int, n: nat)
    ensures
        fall_iter(vy, gy, dt, n) == vy + n * fmul(gy, dt),
    decreases n,
{
    if n == 0 {
        assert(vy + 0 * fmul(gy, dt) == vy) by (nonlinear_arith);
    } else {
        let g = fmul(gy, dt);
        lemma_airborne_linear(vy + g, gy, dt, (n - 1) as nat);
        assert(vy + g + (n - 1) * g == vy + n * g) by (nonlinear_arith)
            requires
                1 <= n,
        ;
    }
}

/// An airborne tick with no jump moves the vertical component by exactly
/// one gravity increment, whatever the steering input does horizontally.
pub proof fn lemma_airborne_tick(
    cfg: MoveConfig,
    dt: int,
    input: Vec2,
    gravity: Vec3,
    velocity: Vec3,
    heading: Basis,
)
    ensures
        tick_spec(cfg, dt, input, false, false, gravity, velocity, heading).1 == vertical_next(
            velocity.y as int, gravity.y as int, dt, false, false, cfg.jump_force as int,
        ),
        tick_spec(cfg, dt, input, false, false, gravity, velocity, heading).1 == velocity.y + fmul(
            gravity.y as int, dt,
        ),
{
}

/// A jump while grounded overwrites the vertical velocity with exactly the
/// jump force; nothing of the prior vertical velocity survives.
pub proof fn lemma_jump_overwrites(
    cfg: MoveConfig,
    dt: int,
    input: Vec2,
    gravity: Vec3,
    velocity: Vec3,
    heading: Basis,
)
    ensures
        tick_spec(cfg, dt, input, true, true, gravity, velocity, heading).1
            == cfg.jump_force as int,
{
}

/// The absolute pitch clamp is idempotent: clamping an already clamped
/// pitch changes nothing, so repeated samples cannot drift.
pub proof fn lemma_clamp_idempotent(p: int)
    ensures
        clamp_pitch(clamp_pitch(p)) == clamp_pitch(p),
{
}

/// A zero motion sample is a no-op: it turns the view by a zero angle, and
/// rewrapping and reclamping a well-formed state gives it back unchanged.
pub proof fn lemma_zero_motion_noop(s: LookState, sens: int)
    requires
        s.wf(),
    ensures
        look_delta(0, sens) == 0,
        wrap_angle(s.yaw - look_delta(0, sens)) == s.yaw,
        clamp_pitch(s.pitch - look_delta(0, sens)) == s.pitch,
{
    assert(0 * sens == 0) by (nonlinear_arith);
    lemma_wrap_identity(s.yaw as int);
}

/// Wrapping is the identity on angles already within one turn.
pub proof fn lemma_wrap_identity(a: int)
    requires
        -PI_FP <= a < PI_FP,
    ensures
        wrap_angle(a) == a,
{
    vstd::arithmetic::div_mod::lemma_small_mod((a + PI_FP) as nat, TWO_PI_FP as nat);
}

} // verus!
