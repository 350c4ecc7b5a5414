//! Fixed-point scalars.
//!
//! Every scalar quantity of the controller (angles, speeds, velocity
//! components, elapsed time) is an `i64` holding the quantity times `UNIT`,
//! so `1_000_000` stands for `1.0`. Products are divided back down by the
//! scale with truncation toward zero.

use vstd::prelude::*;

verus! {

/// Fixed-point scale: an `i64` scalar `v` stands for the real number
/// `v / UNIT`. Angles are in radians times `UNIT`.
pub const UNIT: i64 = 1_000_000;

/// Magnitude bound accepted for the factors of `mul_div`; keeps every
/// intermediate product inside the machine range.
pub const FACTOR_MAX: i64 = 0x7fff_ffff_ffff_ffff;

/// `p / d` rounded toward zero (the rounding executable code performs on
/// magnitudes).
pub open spec fn div_trunc(p: int, d: int) -> int {
    if p >= 0 {
        p / d
    } else {
        -((-p) / d)
    }
}

/// `a * b / d` in exact integer arithmetic, rounded toward zero.
pub open spec fn mul_div_trunc(a: int, b: int, d: int) -> int {
    div_trunc(a * b, d)
}

/// Truncating fixed-point product: `a * b / UNIT`, rounded toward zero.
pub open spec fn fmul(a: int, b: int) -> int {
    mul_div_trunc(a, b, UNIT as int)
}

/// Computes `a * b / d` rounded toward zero, via non-negative magnitudes.
pub fn mul_div(a: i64, b: i64, d: i64) -> (r: i64)
    requires
        0 < d,
        -FACTOR_MAX <= a <= FACTOR_MAX,
        -FACTOR_MAX <= b <= FACTOR_MAX,
        -(i64::MAX as int) <= a * b <= i64::MAX as int,
    ensures
        r == mul_div_trunc(a as int, b as int, d as int),
        vstd::math::abs(r as int) == vstd::math::abs(a * b) as int / (d as int),
        vstd::math::abs(r as int) <= vstd::math::abs(a * b),
{
    let negative: bool = (a < 0) != (b < 0);
    let ma: u64 = if a >= 0 { a as u64 } else { (-a) as u64 };
    let mb: u64 = if b >= 0 { b as u64 } else { (-b) as u64 };
    proof {
        assert(ma * mb == vstd::math::abs(a * b)) by (nonlinear_arith)
            requires
                ma == vstd::math::abs(a as int),
                mb == vstd::math::abs(b as int),
        ;
    }
    let p: u64 = ma * mb;
    let q: u64 = p / (d as u64);
    proof {
        lemma_trunc_quotient(a as int, b as int, d as int, q as int, negative);
    }
    if negative {
        -(q as i64)
    } else {
        q as i64
    }
}

/// Divides a signed value by a positive divisor, rounding toward zero.
pub fn div_unit(p: i64) -> (r: i64)
    requires
        -FACTOR_MAX <= p <= FACTOR_MAX,
    ensures
        r == div_trunc(p as int, UNIT as int),
        vstd::math::abs(r as int) == vstd::math::abs(p as int) as int / (UNIT as int),
{
    mul_div(p, 1, UNIT)
}

/// The magnitudes of two factors bound the magnitude of their product.
pub proof fn lemma_abs_mul_le(a: int, b: int, m: int, n: int)
    requires
        vstd::math::abs(a) <= m,
        vstd::math::abs(b) <= n,
    ensures
        -(m * n) <= a * b <= m * n,
{
    assert(-(m * n) <= a * b <= m * n) by (nonlinear_arith)
        requires
            vstd::math::abs(a) <= m,
            vstd::math::abs(b) <= n,
    ;
}

/// A magnitude of at most `m * d` divides down (toward zero) to a value of
/// magnitude at most `m`.
pub proof fn lemma_div_trunc_bound(p: int, m: int, d: int)
    requires
        0 < d,
        0 <= m,
        vstd::math::abs(p) <= m * d,
    ensures
        -m <= div_trunc(p, d) <= m,
{
    vstd::arithmetic::div_mod::lemma_div_multiples_vanish(m, d);
    if p >= 0 {
        vstd::arithmetic::div_mod::lemma_div_is_ordered(p, m * d, d);
        vstd::arithmetic::div_mod::lemma_div_is_ordered(0, p, d);
    } else {
        vstd::arithmetic::div_mod::lemma_div_is_ordered(-p, m * d, d);
        vstd::arithmetic::div_mod::lemma_div_is_ordered(0, -p, d);
    }
}

/// Floor division of a magnitude by a positive divisor gives the truncating
/// quotient of the signed product, with the sign put back afterwards.
proof fn lemma_trunc_quotient(a: int, b: int, d: int, q: int, negative: bool)
    requires
        0 < d,
        negative == ((a < 0) != (b < 0)),
        q == vstd::math::abs(a * b) as int / d,
    ensures
        negative ==> -q == mul_div_trunc(a, b, d),
        !negative ==> q == mul_div_trunc(a, b, d),
        0 <= q <= vstd::math::abs(a * b),
{
    assert(a * b >= 0 ==> !negative || a * b == 0) by (nonlinear_arith)
        requires
            negative == ((a < 0) != (b < 0)),
    ;
    assert(a * b < 0 ==> negative) by (nonlinear_arith)
        requires
            negative == ((a < 0) != (b < 0)),
    ;
    vstd::arithmetic::div_mod::lemma_div_is_ordered(0, vstd::math::abs(a * b) as int, d);
    vstd::arithmetic::div_mod::lemma_div_nonincreasing(vstd::math::abs(a * b) as int, d);
}

} // verus!
