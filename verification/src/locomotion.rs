//! Per-tick locomotion: gravity accumulation, jumping, and steered
//! horizontal movement.
//!
//! Each simulation tick takes the current velocity and produces the next
//! one. Vertically, gravity accumulates while airborne and a jump while
//! grounded overwrites the vertical speed with the configured jump force.
//! Horizontally, active steering snaps the velocity to the steered
//! direction at full configured speed, while no steering decays each
//! component toward zero by at most `speed * dt` per tick, without
//! overshooting.

use vstd::prelude::*;
use crate::fixed::{
    UNIT, FACTOR_MAX, div_trunc, mul_div_trunc, fmul, mul_div, lemma_abs_mul_le,
};
use crate::sqrt::{sqrt_ceil, isqrt_ceil, lemma_sqrt_ceil_bounds};
use crate::vec::{Vec2, Vec3};
use crate::basis::Basis;

verus! {

/// Largest accepted configured speed (a thousand units per second).
pub const SPEED_MAX: i64 = 1_000_000_000;

/// Largest accepted jump force magnitude.
pub const JUMP_MAX: i64 = 1_000_000_000;

/// Largest accepted tick duration (ten seconds).
pub const DT_MAX: i64 = 10_000_000;

/// Largest accepted gravity component magnitude.
pub const GRAVITY_MAX: i64 = 1_000_000_000;

/// Largest accepted velocity component magnitude fed into a tick.
pub const VEL_MAX: i64 = 1_000_000_000_000_000;

/// The locomotion tunables, configured once at setup.
#[derive(Clone, Copy, PartialEq, Eq, Structural, Debug)]
pub struct MoveConfig {
    /// Vertical speed imparted by a jump.
    pub jump_force: i64,
    /// Horizontal speed held while steering; also the most each horizontal
    /// component decays per second with no steering.
    pub speed: i64,
}

/// One scalar moved toward zero by at most `step`: clamped to zero if the
/// step would overshoot, else shortened by exactly `step`.
pub open spec fn move_toward_zero_spec(v: int, step: int) -> int {
    if vstd::math::abs(v) <= step {
        0
    } else if v > 0 {
        v - step
    } else {
        v + step
    }
}

/// The next vertical velocity: gravity accumulates while airborne, and a
/// jump while grounded overwrites the result with the jump force.
pub open spec fn vertical_next(
    vy: int,
    gy: int,
    dt: int,
    grounded: bool,
    jump: bool,
    jump_force: int,
) -> int {
    if jump && grounded {
        jump_force
    } else if !grounded {
        vy + fmul(gy, dt)
    } else {
        vy
    }
}

/// Steering input rotated into world space and projected onto the
/// horizontal plane: the pair of the world X and Z components.
pub open spec fn world_dir_x(heading: Basis, input: Vec2) -> int {
    heading.rotate_x(Vec3 { x: input.x, y: 0, z: input.y })
}

/// Z component of the projected world-space steering direction.
pub open spec fn world_dir_z(heading: Basis, input: Vec2) -> int {
    heading.rotate_z(Vec3 { x: input.x, y: 0, z: input.y })
}

/// Whether the projected steering direction is non-zero, i.e. the tick
/// steers instead of decaying.
pub open spec fn is_steering(heading: Basis, input: Vec2) -> bool {
    world_dir_x(heading, input) != 0 || world_dir_z(heading, input) != 0
}

/// One steered horizontal component: the world direction component scaled
/// by `speed / len`, where `len` is the direction's length rounded up.
pub open spec fn steer_component(w: int, speed: int, len: int) -> int {
    mul_div_trunc(w, speed, len)
}

/// The length (rounded up) of the projected steering direction.
pub open spec fn steer_len(heading: Basis, input: Vec2) -> int {
    let wx = world_dir_x(heading, input);
    let wz = world_dir_z(heading, input);
    sqrt_ceil(wx * wx + wz * wz)
}

/// The velocity a tick hands back, as the triple `(x, y, z)`.
pub open spec fn tick_spec(
    cfg: MoveConfig,
    dt: int,
    input: Vec2,
    grounded: bool,
    jump: bool,
    gravity: Vec3,
    velocity: Vec3,
    heading: Basis,
) -> (int, int, int) {
    let vy = vertical_next(velocity.y as int, gravity.y as int, dt, grounded, jump,
        cfg.jump_force as int);
    if is_steering(heading, input) {
        let len = steer_len(heading, input);
        (
            steer_component(world_dir_x(heading, input), cfg.speed as int, len),
            vy,
            steer_component(world_dir_z(heading, input), cfg.speed as int, len),
        )
    } else {
        let step = fmul(cfg.speed as int, dt);
        (
            move_toward_zero_spec(velocity.x as int, step),
            vy,
            move_toward_zero_spec(velocity.z as int, step),
        )
    }
}

impl MoveConfig {
    /// The tunables lie within the ranges a tick accepts.
    pub open spec fn wf(self) -> bool {
        &&& 0 <= self.speed <= SPEED_MAX
        &&& -JUMP_MAX <= self.jump_force <= JUMP_MAX
    }

    /// Builds a configuration known to be in range.
    pub fn new(jump_force: i64, speed: i64) -> (r: MoveConfig)
        requires
            0 <= speed <= SPEED_MAX,
            -JUMP_MAX <= jump_force <= JUMP_MAX,
        ensures
            r == (MoveConfig { jump_force, speed }),
            r.wf(),
    {
        MoveConfig { jump_force, speed }
    }

    /// Validates the tunables once at setup: accepts exactly the in-range
    /// values and rejects the rest.
    pub fn try_new(jump_force: i64, speed: i64) -> (r: Option<MoveConfig>)
        ensures
            (0 <= speed <= SPEED_MAX && -JUMP_MAX <= jump_force <= JUMP_MAX) ==> r == Some(
                MoveConfig { jump_force, speed },
            ),
            !(0 <= speed <= SPEED_MAX && -JUMP_MAX <= jump_force <= JUMP_MAX) ==> r is None,
    {
        if 0 <= speed && speed <= SPEED_MAX && -JUMP_MAX <= jump_force && jump_force <= JUMP_MAX {
            Some(MoveConfig { jump_force, speed })
        } else {
            None
        }
    }

    /// One locomotion tick: returns the next velocity.
    ///
    /// The result equals `tick_spec` exactly; in particular, while the
    /// projected steering input is non-zero the squared horizontal speed of
    /// the result never exceeds the configured speed squared, with no
    /// steering the horizontal components only shrink, a grounded jump
    /// lands exactly on `jump_force`, and an airborne tick adds exactly
    /// `gravity.y * dt` to the vertical component.
    pub fn tick(
        &self,
        dt: i64,
        input: Vec2,
        grounded: bool,
        jump: bool,
        gravity: Vec3,
        velocity: Vec3,
        heading: &Basis,
    ) -> (r: Vec3)
        requires
            self.wf(),
            heading.wf(),
            0 <= dt <= DT_MAX,
            -UNIT <= input.x <= UNIT,
            -UNIT <= input.y <= UNIT,
            -GRAVITY_MAX <= gravity.y <= GRAVITY_MAX,
            -VEL_MAX <= velocity.x <= VEL_MAX,
            -VEL_MAX <= velocity.y <= VEL_MAX,
            -VEL_MAX <= velocity.z <= VEL_MAX,
        ensures
            (r.x as int, r.y as int, r.z as int) == tick_spec(
                *self, dt as int, input, grounded, jump, gravity, velocity, *heading,
            ),
            is_steering(*heading, input) ==> r.x * r.x + r.z * r.z <= self.speed * self.speed,
            is_steering(*heading, input) ==> vstd::math::abs(r.x as int) <= self.speed
                && vstd::math::abs(r.z as int) <= self.speed,
            !is_steering(*heading, input) ==> vstd::math::abs(r.x as int) <= vstd::math::abs(
                velocity.x as int,
            ) && vstd::math::abs(r.z as int) <= vstd::math::abs(velocity.z as int),
            jump && grounded ==> r.y == self.jump_force,
            !grounded ==> !jump ==> r.y == velocity.y + fmul(gravity.y as int, dt as int),
    {
        let mut vy: i64 = velocity.y;
        if !grounded {
            proof {
                lemma_abs_mul_le(gravity.y as int, dt as int, GRAVITY_MAX as int, DT_MAX as int);
            }
            let g_step: i64 = mul_div(gravity.y, dt, UNIT);
            vy = vy + g_step;
        }
        if jump && grounded {
            vy = self.jump_force;
        }
        let w: Vec3 = heading.rotate(Vec3 { x: input.x, y: 0, z: input.y });
        let (vx, vz): (i64, i64) = if w.x != 0 || w.z != 0 {
            proof {
                lemma_abs_mul_le(w.x as int, w.x as int, 3 * UNIT as int, 3 * UNIT as int);
                lemma_abs_mul_le(w.z as int, w.z as int, 3 * UNIT as int, 3 * UNIT as int);
                assert(w.x * w.x >= 0 && w.z * w.z >= 0) by (nonlinear_arith);
                assert(w.x != 0 ==> w.x * w.x > 0) by (nonlinear_arith);
                assert(w.z != 0 ==> w.z * w.z > 0) by (nonlinear_arith);
            }
            let len_sq: u64 = (w.x * w.x + w.z * w.z) as u64;
            let len_u: u64 = isqrt_ceil(len_sq);
            proof {
                lemma_sqrt_ceil_bounds(len_sq as int);
            }
            let len: i64 = len_u as i64;
            proof {
                lemma_abs_mul_le(w.x as int, self.speed as int, 3 * UNIT as int, SPEED_MAX as int);
                lemma_abs_mul_le(w.z as int, self.speed as int, 3 * UNIT as int, SPEED_MAX as int);
                lemma_steer_bound(w.x as int, w.z as int, self.speed as int, len as int);
            }
            (mul_div(w.x, self.speed, len), mul_div(w.z, self.speed, len))
        } else {
            proof {
                lemma_abs_mul_le(self.speed as int, dt as int, SPEED_MAX as int, DT_MAX as int);
            }
            let step: i64 = mul_div(self.speed, dt, UNIT);
            proof {
                assert(self.speed * dt >= 0) by (nonlinear_arith)
                    requires
                        self.speed >= 0,
                        dt >= 0,
                ;
            }
            (move_toward_zero(velocity.x, step), move_toward_zero(velocity.z, step))
        };
        Vec3 { x: vx, y: vy, z: vz }
    }
}

/// Moves `v` toward zero by at most `step`, clamping to zero on overshoot.
pub fn move_toward_zero(v: i64, step: i64) -> (r: i64)
    requires
        0 <= step <= FACTOR_MAX,
        -FACTOR_MAX <= v <= FACTOR_MAX,
    ensures
        r == move_toward_zero_spec(v as int, step as int),
        vstd::math::abs(r as int) <= vstd::math::abs(v as int),
        v >= 0 ==> 0 <= r <= v,
        v <= 0 ==> v <= r <= 0,
{
    if v >= 0 {
        if v <= step {
            0
        } else {
            v - step
        }
    } else {
        if -v <= step {
            0
        } else {
            v + step
        }
    }
}

/// The steered horizontal velocity is no longer than the configured speed:
/// scaling a direction of squared length at most `len * len` by
/// `speed / len` (each component rounded toward zero) cannot produce a
/// vector of squared length above `speed * speed`.
pub proof fn lemma_steer_bound(wx: int, wz: int, speed: int, len: int)
    requires
        0 <= speed,
        0 < len,
        wx * wx + wz * wz <= len * len,
    ensures
        steer_component(wx, speed, len) * steer_component(wx, speed, len) + steer_component(
            wz, speed, len,
        ) * steer_component(wz, speed, len) <= speed * speed,
        vstd::math::abs(steer_component(wx, speed, len)) <= speed,
        vstd::math::abs(steer_component(wz, speed, len)) <= speed,
{
    let qx = vstd::math::abs(steer_component(wx, speed, len)) as int;
    let qz = vstd::math::abs(steer_component(wz, speed, len)) as int;
    lemma_div_trunc_abs(wx * speed, len);
    lemma_div_trunc_abs(wz * speed, len);
    assert(vstd::math::abs(wx * speed) == vstd::math::abs(wx) * speed) by (nonlinear_arith)
        requires
            speed >= 0,
    ;
    assert(vstd::math::abs(wz * speed) == vstd::math::abs(wz) * speed) by (nonlinear_arith)
        requires
            speed >= 0,
    ;
    vstd::arithmetic::div_mod::lemma_fundamental_div_mod(vstd::math::abs(wx) * speed, len);
    vstd::arithmetic::div_mod::lemma_fundamental_div_mod(vstd::math::abs(wz) * speed, len);
    assert(qx * len <= vstd::math::abs(wx) * speed);
    assert(qz * len <= vstd::math::abs(wz) * speed);
    assert((qx * qx + qz * qz) * (len * len) <= (wx * wx + wz * wz) * (speed * speed))
        by (nonlinear_arith)
        requires
            0 <= qx,
            0 <= qz,
            0 < len,
            0 <= speed,
            qx * len <= vstd::math::abs(wx) * speed,
            qz * len <= vstd::math::abs(wz) * speed,
    ;
    assert(qx * qx + qz * qz <= speed * speed) by (nonlinear_arith)
        requires
            0 < len,
            (qx * qx + qz * qz) * (len * len) <= (wx * wx + wz * wz) * (speed * speed),
            wx * wx + wz * wz <= len * len,
            0 <= speed,
    ;
    assert(qx <= speed && qz <= speed) by (nonlinear_arith)
        requires
            0 <= qx,
            0 <= qz,
            qx * qx + qz * qz <= speed * speed,
            0 <= speed,
    ;
    assert(steer_component(wx, speed, len) * steer_component(wx, speed, len) == qx * qx)
        by (nonlinear_arith)
        requires
            qx == vstd::math::abs(steer_component(wx, speed, len)),
    ;
    assert(steer_component(wz, speed, len) * steer_component(wz, speed, len) == qz * qz)
        by (nonlinear_arith)
        requires
            qz == vstd::math::abs(steer_component(wz, speed, len)),
    ;
}

/// The magnitude of a truncating quotient is the floor quotient of the
/// magnitude.
pub proof fn lemma_div_trunc_abs(p: int, d: int)
    requires
        0 < d,
    ensures
        vstd::math::abs(div_trunc(p, d)) == vstd::math::abs(p) as int / d,
{
    if p >= 0 {
        vstd::arithmetic::div_mod::lemma_div_is_ordered(0, p, d);
    } else {
        vstd::arithmetic::div_mod::lemma_div_is_ordered(0, -p, d);
    }
}

} // verus!
