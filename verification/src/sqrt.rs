//! Integer square roots, used to normalize the steering direction.
//!
//! Steering scales a horizontal direction by `speed / |direction|`; the
//! length is rounded *up* to the next integer, so the scaled vector can
//! never come out longer than `speed`.

use vstd::prelude::*;

verus! {

/// Largest `r >= 0` with `r * r <= s` (0 for `s <= 0`).
pub open spec fn sqrt_floor(s: int) -> int
    decreases s,
{
    if s <= 0 {
        0
    } else {
        let r = sqrt_floor(s - 1);
        if (r + 1) * (r + 1) <= s {
            r + 1
        } else {
            r
        }
    }
}

/// Smallest `r >= 0` with `s <= r * r` (0 for `s <= 0`).
pub open spec fn sqrt_ceil(s: int) -> int {
    if sqrt_floor(s) * sqrt_floor(s) == s {
        sqrt_floor(s)
    } else {
        sqrt_floor(s) + 1
    }
}

/// `sqrt_floor(s)` is the floor of the square root: its square is at most
/// `s`, and the next square is already above `s`.
pub proof fn lemma_sqrt_floor_bounds(s: int)
    requires
        0 <= s,
    ensures
        0 <= sqrt_floor(s),
        sqrt_floor(s) * sqrt_floor(s) <= s,
        s < (sqrt_floor(s) + 1) * (sqrt_floor(s) + 1),
    decreases s,
{
    if s > 0 {
        lemma_sqrt_floor_bounds(s - 1);
        let r = sqrt_floor(s - 1);
        if (r + 1) * (r + 1) <= s {
            assert(s - 1 < (r + 1) * (r + 1));
            assert((r + 2) * (r + 2) > (r + 1) * (r + 1)) by (nonlinear_arith)
                requires
                    0 <= r,
            ;
        }
    }
}

/// Only one integer squares to at most `s` while its successor squares to
/// more, so any bracket of that shape pins down `sqrt_floor`.
pub proof fn lemma_sqrt_floor_unique(s: int, r: int)
    requires
        0 <= s,
        0 <= r,
        r * r <= s,
        s < (r + 1) * (r + 1),
    ensures
        r == sqrt_floor(s),
{
    lemma_sqrt_floor_bounds(s);
    let f = sqrt_floor(s);
    assert(r < f ==> (r + 1) * (r + 1) <= f * f) by (nonlinear_arith)
        requires
            0 <= r,
            0 <= f,
    ;
    assert(f < r ==> (f + 1) * (f + 1) <= r * r) by (nonlinear_arith)
        requires
            0 <= r,
            0 <= f,
    ;
}

/// `sqrt_ceil(s)` squares to at least `s`, and for positive `s` the
/// previous integer squares to less.
pub proof fn lemma_sqrt_ceil_bounds(s: int)
    requires
        0 <= s,
    ensures
        0 <= sqrt_ceil(s),
        s <= sqrt_ceil(s) * sqrt_ceil(s),
        0 < s ==> 0 < sqrt_ceil(s),
        0 < s ==> (sqrt_ceil(s) - 1) * (sqrt_ceil(s) - 1) < s,
{
    lemma_sqrt_floor_bounds(s);
    let f = sqrt_floor(s);
    if 0 < s {
        if f * f == s {
            assert(0 < f) by (nonlinear_arith)
                requires
                    0 <= f,
                    0 < s,
                    f * f == s,
            ;
            assert((f - 1) * (f - 1) < f * f) by (nonlinear_arith)
                requires
                    0 < f,
            ;
        }
    }
}

/// Binary search for the floor of the square root of `s`.
pub fn isqrt_floor(s: u64) -> (r: u64)
    requires
        s < 0x4000_0000_0000_0000,
    ensures
        r == sqrt_floor(s as int),
        r < 0x8000_0000,
{
    let mut lo: u64 = 0;
    let mut hi: u64 = 0x8000_0000;
    proof {
        assert((0x8000_0000int) * (0x8000_0000int) == 0x4000_0000_0000_0000int)
            by (nonlinear_arith);
    }
    while lo + 1 < hi
        invariant
            0 <= lo < hi <= 0x8000_0000,
            lo * lo <= s,
            s < 0x4000_0000_0000_0000,
            (s as int) < (hi as int) * (hi as int),
        decreases hi - lo,
    {
        let mid: u64 = lo + (hi - lo) / 2;
        proof {
            assert((mid as int) * (mid as int) < 0x4000_0000_0000_0000int) by (nonlinear_arith)
                requires
                    0 <= mid < 0x8000_0000,
            ;
        }
        if mid * mid <= s {
            lo = mid;
        } else {
            hi = mid;
        }
    }
    proof {
        lemma_sqrt_floor_unique(s as int, lo as int);
    }
    lo
}

/// Ceiling of the square root of `s`.
pub fn isqrt_ceil(s: u64) -> (r: u64)
    requires
        s < 0x4000_0000_0000_0000,
    ensures
        r == sqrt_ceil(s as int),
        r <= 0x8000_0000,
{
    let r = isqrt_floor(s);
    proof {
        assert((r as int) * (r as int) < 0x4000_0000_0000_0000int) by (nonlinear_arith)
            requires
                0 <= r < 0x8000_0000,
        ;
    }
    if r * r == s {
        r
    } else {
        proof {
            lemma_sqrt_floor_bounds(s as int);
        }
        r + 1
    }
}

} // verus!
