//! Shared fixed-point geometry helpers.
//!
//! All lengths, coordinates and widget values in this crate are integers in
//! milli-units: one thousandth of a point (or of a value unit). The helpers
//! here are total over their stated ranges and their contracts pin the exact
//! result, including the rounding of the truncating integer division that
//! mirrors the host's arithmetic.

use vstd::prelude::*;

verus! {

/// Upper bound on a widget dimension in milli-units (a million points).
pub const DIM_MAX: i64 = 1_000_000_000;

/// Bound on the magnitude of a widget value in milli-units.
pub const VAL_MAX: i64 = 1_000_000_000_000;

/// Upper bound on a tick count.
pub const TICKS_MAX: usize = 10_000;

/// A two-dimensional size in milli-units.
#[derive(Clone, Copy, Debug, PartialEq, Eq, Structural)]
pub struct Size {
    /// Width in milli-units.
    pub x: i64,
    /// Height in milli-units.
    pub y: i64,
}

/// Clamp `v` into the closed interval `[min, max]`.
///
/// For every value `v`, the result stays within `[min, max]`.
pub fn clamp_i64(v: i64, min: i64, max: i64) -> (r: i64)
    requires
        min <= max,
    ensures
        min <= r <= max,
        r == (if v < min {
            min
        } else if v > max {
            max
        } else {
            v
        }),
{
    if v < min {
        min
    } else if v > max {
        max
    } else {
        v
    }
}

/// Clamp `v` into the closed interval `[min, max]`, on 16-bit values.
///
/// For every value `v`, the result stays within `[min, max]`.
pub fn clamp_i16(v: i16, min: i16, max: i16) -> (r: i16)
    requires
        min <= max,
    ensures
        min <= r <= max,
        r == (if v < min {
            min
        } else if v > max {
            max
        } else {
            v
        }),
{
    if v < min {
        min
    } else if v > max {
        max
    } else {
        v
    }
}

/// Truncating division by a positive divisor: rounds toward zero, as the
/// host's hardware division does.
pub open spec fn spec_div_trunc(a: int, b: int) -> int {
    if a >= 0 {
        a / b
    } else {
        -((-a) / b)
    }
}

/// Quotient of `a` and `b`, rounded toward zero.
pub fn div_trunc(a: i64, b: i64) -> (q: i64)
    requires
        b > 0,
        a > i64::MIN,
    ensures
        q == spec_div_trunc(a as int, b as int),
{
    a / b
}

/// Truncating division by a positive divisor keeps the order of the
/// numerators.
pub proof fn lemma_div_trunc_ordered(a: int, b: int, d: int)
    requires
        a <= b,
        d > 0,
    ensures
        spec_div_trunc(a, d) <= spec_div_trunc(b, d),
{
    if a >= 0 {
        vstd::arithmetic::div_mod::lemma_div_is_ordered(a, b, d);
    } else if b < 0 {
        vstd::arithmetic::div_mod::lemma_div_is_ordered(-b, -a, d);
    } else {
        vstd::arithmetic::div_mod::lemma_div_pos_is_pos(-a, d);
        vstd::arithmetic::div_mod::lemma_div_pos_is_pos(b, d);
    }
}

/// A numerator between two multiples of a positive divisor divides, rounding
/// toward zero, to a quotient between the two factors.
pub proof fn lemma_div_trunc_bounds(s: int, d: int, lo: int, hi: int)
    requires
        d > 0,
        lo * d <= s,
        s <= hi * d,
    ensures
        lo <= spec_div_trunc(s, d) <= hi,
{
    if s >= 0 {
        vstd::arithmetic::div_mod::lemma_div_pos_is_pos(s, d);
        assert(hi >= 0) by (nonlinear_arith)
            requires
                d > 0,
                s >= 0,
                s <= hi * d,
        ;
        assert(hi * d == d * hi) by (nonlinear_arith);
        vstd::arithmetic::div_mod::lemma_multiply_divide_le(s, d, hi);
        if lo > 0 {
            vstd::arithmetic::div_mod::lemma_div_is_ordered(lo * d, s, d);
            vstd::arithmetic::div_mod::lemma_div_by_multiple(lo, d);
        }
    } else {
        let m = -s;
        vstd::arithmetic::div_mod::lemma_div_pos_is_pos(m, d);
        assert(lo < 0) by (nonlinear_arith)
            requires
                d > 0,
                s < 0,
                lo * d <= s,
        ;
        assert(m <= (-lo) * d) by (nonlinear_arith)
            requires
                lo * d <= s,
                m == -s,
        ;
        assert((-lo) * d == d * (-lo)) by (nonlinear_arith);
        vstd::arithmetic::div_mod::lemma_multiply_divide_le(m, d, -lo);
        if hi < 0 {
            assert((-hi) * d <= m) by (nonlinear_arith)
                requires
                    s <= hi * d,
                    m == -s,
            ;
            vstd::arithmetic::div_mod::lemma_div_is_ordered((-hi) * d, m, d);
            vstd::arithmetic::div_mod::lemma_div_by_multiple(-hi, d);
        }
    }
}

/// Linear interpolation in milli-units: `t == 0` gives `lo`, `t == 1000`
/// gives `hi`, intermediate `t` a proportionally placed point (rounded
/// toward `lo`).
pub open spec fn spec_lerp_milli(lo: int, hi: int, t: int) -> int {
    lo + spec_div_trunc((hi - lo) * t, 1000)
}

/// Interpolate between `lo` and `hi` by `t` thousandths.
pub fn lerp_milli(lo: i64, hi: i64, t: i64) -> (r: i64)
    requires
        0 <= t <= 1000,
        -(8 * DIM_MAX) <= lo <= 8 * DIM_MAX,
        -(8 * DIM_MAX) <= hi <= 8 * DIM_MAX,
    ensures
        r == spec_lerp_milli(lo as int, hi as int, t as int),
        t == 0 ==> r == lo,
        t == 1000 ==> r == hi,
{
    if hi >= lo {
        let d: i64 = hi - lo;
        proof {
            lemma_milli_product_bounds(d as int, t as int);
        }
        let q: i64 = d * t / 1000;
        lo + q
    } else {
        let d: i64 = lo - hi;
        proof {
            lemma_milli_product_bounds(d as int, t as int);
            assert((hi - lo) * t == -(d * t)) by (nonlinear_arith)
                requires
                    d == lo - hi,
            ;
        }
        let q: i64 = d * t / 1000;
        lo - q
    }
}

/// The product of a span of at most sixteen maximal dimensions with a
/// milli-fraction stays within machine range, and its milli-quotient within
/// the span.
proof fn lemma_milli_product_bounds(d: int, t: int)
    requires
        0 <= d <= 16 * DIM_MAX,
        0 <= t <= 1000,
    ensures
        0 <= d * t <= 16_000_000_000_000,
        0 <= d * t / 1000 <= d,
        t == 0 ==> d * t / 1000 == 0,
        t == 1000 ==> d * t / 1000 == d,
{
    assert(0 <= d * t <= 16_000_000_000_000) by (nonlinear_arith)
        requires
            0 <= d <= 16_000_000_000int,
            0 <= t <= 1000,
    ;
    vstd::arithmetic::div_mod::lemma_div_pos_is_pos(d * t, 1000);
    assert(d * t <= 1000 * d) by (nonlinear_arith)
        requires
            0 <= d,
            0 <= t <= 1000,
    ;
    vstd::arithmetic::div_mod::lemma_multiply_divide_le(d * t, 1000, d);
    if t == 0 {
        vstd::arithmetic::div_mod::lemma_div_of0(1000);
    }
    if t == 1000 {
        vstd::arithmetic::div_mod::lemma_div_multiples_vanish(d, 1000);
    }
}

} // verus!
