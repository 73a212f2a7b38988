//! Integer arithmetic shared by the rig: a fixed-point scale, clamping,
//! division rounded toward zero and the integer square root.
//!
//! Every quantity of the library is an integer. Fractions (zoom levels,
//! components of unit directions) and angles are counted in millionths;
//! time is counted in microseconds.

use vstd::prelude::*;

verus! {

/// One whole, in millionths. A zoom level of `UNIT` is fully zoomed out, a
/// direction of length `UNIT` is a unit direction, an angle of `UNIT` is one
/// radian.
pub const UNIT: i64 = 1_000_000;

/// Microseconds in one second. Elapsed time beyond one second is not counted
/// when a frame's steps are scaled.
pub const MICROS_PER_SECOND: i64 = 1_000_000;

/// `v` brought into `[lo, hi]`.
pub open spec fn clamp(v: int, lo: int, hi: int) -> int {
    if v < lo {
        lo
    } else if v > hi {
        hi
    } else {
        v
    }
}

/// -1, 0 or +1 according to the sign of `v`.
pub open spec fn signum(v: int) -> int {
    if v < 0 {
        -1
    } else if v > 0 {
        1
    } else {
        0
    }
}

/// Quotient of `n` by a positive `d`, rounded toward zero.
pub open spec fn div_toward_zero(n: int, d: int) -> int {
    if n >= 0 {
        n / d
    } else {
        -((-n) / d)
    }
}

/// `r` is the largest integer whose square does not exceed `n`.
pub open spec fn is_floor_sqrt(n: int, r: int) -> bool {
    0 <= r && r * r <= n < (r + 1) * (r + 1)
}

/// The largest integer whose square does not exceed `n` (for `n >= 0`).
pub open spec fn floor_sqrt(n: int) -> int {
    choose|r: int| is_floor_sqrt(n, r)
}

/// A number has at most one floor square root, so whoever holds one holds
/// `floor_sqrt(n)`.
pub proof fn lemma_floor_sqrt_unique(n: int, r: int)
    requires
        is_floor_sqrt(n, r),
    ensures
        floor_sqrt(n) == r,
{
    let s = floor_sqrt(n);
    assert(is_floor_sqrt(n, s));
    if s < r {
        assert((s + 1) * (s + 1) <= r * r) by (nonlinear_arith)
            requires
                0 <= s,
                s + 1 <= r,
        ;
    } else if r < s {
        assert((r + 1) * (r + 1) <= s * s) by (nonlinear_arith)
            requires
                0 <= r,
                r + 1 <= s,
        ;
    }
}

/// A quotient rounded toward zero is no larger in magnitude than the bound
/// `m` whenever the numerator is within `m * d`.
pub proof fn lemma_div_toward_zero_bound(n: int, d: int, m: int)
    requires
        d > 0,
        m >= 0,
        -(m * d) <= n <= m * d,
    ensures
        -m <= div_toward_zero(n, d) <= m,
{
    let a = if n >= 0 { n } else { -n };
    assert(0 <= a / d <= m) by (nonlinear_arith)
        requires
            d > 0,
            m >= 0,
            0 <= a <= m * d,
    ;
}

/// `v` brought into `[lo, hi]`.
pub fn clamp_i128(v: i128, lo: i128, hi: i128) -> (r: i128)
    requires
        lo <= hi,
    ensures
        r == clamp(v as int, lo as int, hi as int),
        lo <= r <= hi,
{
    if v < lo {
        lo
    } else if v > hi {
        hi
    } else {
        v
    }
}

/// Divides `n` by a positive `d` and rounds toward zero.
pub fn quotient(n: i128, d: i128) -> (q: i128)
    requires
        d > 0,
        n > i128::MIN,
    ensures
        q == div_toward_zero(n as int, d as int),
{
    if n >= 0 {
        n / d
    } else {
        let m: i128 = -n;
        let p: i128 = m / d;
        -p
    }
}

/// The integer square root: the largest `r` with `r * r <= n`.
pub fn isqrt(n: u128) -> (r: u64)
    ensures
        is_floor_sqrt(n as int, r as int),
        r as int == floor_sqrt(n as int),
{
    let mut lo: u128 = 0;
    let mut hi: u128 = 0x1_0000_0000_0000_0000;
    assert(0x1_0000_0000_0000_0000int * 0x1_0000_0000_0000_0000int
        == 0x1_0000_0000_0000_0000_0000_0000_0000_0000int) by (nonlinear_arith);
    while hi - lo > 1
        invariant
            lo < hi <= 0x1_0000_0000_0000_0000,
            lo * lo <= n < hi * hi,
        decreases hi - lo,
    {
        let mid: u128 = lo + (hi - lo) / 2;
        assert(mid * mid <= 0xffff_ffff_ffff_ffffint * 0xffff_ffff_ffff_ffffint) by (nonlinear_arith)
            requires
                0 <= mid <= 0xffff_ffff_ffff_ffff,
        ;
        assert(0xffff_ffff_ffff_ffffint * 0xffff_ffff_ffff_ffffint < 0x1_0000_0000_0000_0000_0000_0000_0000_0000int)
            by (nonlinear_arith);
        if mid * mid <= n {
            lo = mid;
        } else {
            hi = mid;
        }
    }
    proof {
        assert(hi == lo + 1);
        lemma_floor_sqrt_unique(n as int, lo as int);
    }
    lo as u64
}

} // verus!
