//! Mouse look: one motion sample turns into a yaw rotation of the actor
//! body and a pitch rotation of the camera, with an absolute pitch clamp.
//!
//! A motion sample holds raw counts; the angle applied per count is the
//! sensitivity divided by `LOOK_DIVISOR`, so a count under sensitivity
//! `1.0` turns the view by `0.0001` radians. Yaw is kept wrapped to one
//! turn, pitch is clamped to a quarter turn either way after every sample;
//! the clamp is absolute, not incremental, so it cannot drift.

use vstd::prelude::*;
use crate::fixed::{mul_div, mul_div_trunc};
use crate::vec::Vec2;

verus! {

/// Half a turn in fixed-point radians.
pub const PI_FP: i64 = 3_141_593;

/// A full turn in fixed-point radians; yaw is stored within
/// `[-PI_FP, PI_FP)`.
pub const TWO_PI_FP: i64 = 6_283_186;

/// A quarter turn (90 degrees) in fixed-point radians: the absolute bound
/// on camera pitch.
pub const PITCH_LIMIT: i64 = 1_570_796;

/// Scale of the look transform: one raw motion count under sensitivity
/// `1.0` turns the view by `1 / LOOK_DIVISOR` radians (0.0001).
pub const LOOK_DIVISOR: i64 = 10_000;

/// Largest accepted sensitivity (a thousand times the default).
pub const SENS_MAX: i64 = 1_000_000_000;

/// Largest accepted magnitude of one raw motion sample component.
pub const MOTION_MAX: i64 = 100_000_000;

/// Multiple of `TWO_PI_FP` added before reducing a raw angle, so the
/// reduction runs on a non-negative value.
pub const WRAP_OFFSET: i64 = PI_FP + TWO_PI_FP * 1_000_000_000_000;

/// Largest raw angle magnitude `wrap_yaw` accepts.
pub const WRAP_INPUT_MAX: i64 = 1_000_000_000_000_000_000;

/// The angle, in fixed-point radians, that a motion of `d` raw counts
/// turns the view by under sensitivity `s`.
pub open spec fn look_delta(d: int, s: int) -> int {
    mul_div_trunc(d, s, LOOK_DIVISOR as int)
}

/// `a` reduced to the half-open turn `[-PI_FP, PI_FP)`, congruent to `a`
/// modulo one turn.
pub open spec fn wrap_angle(a: int) -> int {
    (a + PI_FP) % (TWO_PI_FP as int) - PI_FP
}

/// `p` clamped to the pitch range `[-PITCH_LIMIT, PITCH_LIMIT]`.
pub open spec fn clamp_pitch(p: int) -> int {
    if p < -PITCH_LIMIT {
        -PITCH_LIMIT as int
    } else if p > PITCH_LIMIT {
        PITCH_LIMIT as int
    } else {
        p
    }
}

/// The orientation state the look controller owns: the actor body's yaw
/// and the camera's pitch.
#[derive(Clone, Copy, PartialEq, Eq, Structural, Debug)]
pub struct LookState {
    /// Body heading around the vertical axis, fixed-point radians in
    /// `[-PI_FP, PI_FP)`.
    pub yaw: i64,
    /// Camera rotation around the horizontal axis, fixed-point radians in
    /// `[-PITCH_LIMIT, PITCH_LIMIT]`.
    pub pitch: i64,
}

impl LookState {
    /// Yaw lies within one turn and pitch within the clamp range.
    pub open spec fn wf(self) -> bool {
        &&& -PI_FP <= self.yaw < PI_FP
        &&& -PITCH_LIMIT <= self.pitch <= PITCH_LIMIT
    }

    /// The state a freshly spawned actor looks from: straight ahead.
    pub fn level() -> (r: LookState)
        ensures
            r == (LookState { yaw: 0, pitch: 0 }),
            r.wf(),
    {
        LookState { yaw: 0, pitch: 0 }
    }

    /// Builds a well-formed state from arbitrary angles, wrapping the yaw
    /// into one turn and clamping the pitch.
    pub fn from_angles(yaw: i64, pitch: i64) -> (r: LookState)
        requires
            -WRAP_INPUT_MAX <= yaw <= WRAP_INPUT_MAX,
        ensures
            r.yaw == wrap_angle(yaw as int),
            r.pitch == clamp_pitch(pitch as int),
            r.wf(),
    {
        LookState { yaw: wrap_yaw(yaw), pitch: clamp_pitch_exec(pitch) }
    }

    /// Applies one mouse-motion sample: the view turns against the motion,
    /// by `look_delta` of each component, and the camera pitch is clamped
    /// afterwards. Zero motion leaves the state as it was.
    pub fn on_mouse_motion(&mut self, motion: Vec2, sensitivity: i64)
        requires
            old(self).wf(),
            0 <= sensitivity <= SENS_MAX,
            -MOTION_MAX <= motion.x <= MOTION_MAX,
            -MOTION_MAX <= motion.y <= MOTION_MAX,
        ensures
            final(self).yaw == wrap_angle(
                old(self).yaw - look_delta(motion.x as int, sensitivity as int),
            ),
            final(self).pitch == clamp_pitch(
                old(self).pitch - look_delta(motion.y as int, sensitivity as int),
            ),
            -PITCH_LIMIT <= final(self).pitch <= PITCH_LIMIT,
            final(self).wf(),
    {
        proof {
            crate::fixed::lemma_abs_mul_le(
                motion.x as int, sensitivity as int, MOTION_MAX as int, SENS_MAX as int,
            );
            crate::fixed::lemma_abs_mul_le(
                motion.y as int, sensitivity as int, MOTION_MAX as int, SENS_MAX as int,
            );
        }
        let yaw_step: i64 = mul_div(motion.x, sensitivity, LOOK_DIVISOR);
        let pitch_step: i64 = mul_div(motion.y, sensitivity, LOOK_DIVISOR);
        self.yaw = wrap_yaw(self.yaw - yaw_step);
        self.pitch = clamp_pitch_exec(self.pitch - pitch_step);
    }
}

/// Reduces a raw angle to `[-PI_FP, PI_FP)` by shifting it into the
/// non-negative range and taking the remainder of one turn.
pub fn wrap_yaw(a: i64) -> (r: i64)
    requires
        -WRAP_INPUT_MAX <= a <= WRAP_INPUT_MAX,
    ensures
        r == wrap_angle(a as int),
        -PI_FP <= r < PI_FP,
{
    let shifted: u64 = (a + WRAP_OFFSET) as u64;
    let m: u64 = shifted % (TWO_PI_FP as u64);
    proof {
        vstd::arithmetic::div_mod::lemma_mod_multiples_vanish(
            1_000_000_000_000int,
            a + PI_FP,
            TWO_PI_FP as int,
        );
    }
    (m as i64) - PI_FP
}

/// Clamps a pitch angle to `[-PITCH_LIMIT, PITCH_LIMIT]`.
pub fn clamp_pitch_exec(p: i64) -> (r: i64)
    ensures
        r == clamp_pitch(p as int),
        -PITCH_LIMIT <= r <= PITCH_LIMIT,
{
    if p < -PITCH_LIMIT {
        -PITCH_LIMIT
    } else if p > PITCH_LIMIT {
        PITCH_LIMIT
    } else {
        p
    }
}

} // verus!
