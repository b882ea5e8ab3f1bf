//! Fixed-point scalars.
//!
//! A scalar carries the real value times [`FX_ONE`] in an `i64`; products are
//! taken in `i128` and divided back down with truncation toward zero. The
//! snapping primitive [`round_to_interval`] rounds to the nearest multiple of
//! an interval, ties away from zero, and treats a non-positive interval as
//! "no snapping".

use vstd::prelude::*;

verus! {

use vstd::arithmetic::div_mod::{
    lemma_fundamental_div_mod,
    lemma_fundamental_div_mod_converse,
    lemma_div_is_ordered,
    lemma_div_pos_is_pos,
    lemma_div_nonincreasing,
};
use vstd::arithmetic::mul::{
    lemma_mul_inequality,
    lemma_mul_nonnegative,
};

/// Number of fixed-point units in 1.0.
pub const FX_ONE: i64 = 1_000_000;

/// Truncated (round toward zero) quotient, the rounding of machine division.
/// Meaningful for `b > 0`.
pub open spec fn tdiv(a: int, b: int) -> int {
    if a >= 0 {
        a / b
    } else {
        -((-a) / b)
    }
}

/// Quotient rounded to the nearest integer, ties away from zero.
/// Meaningful for `b > 0`.
pub open spec fn rdiv(a: int, b: int) -> int {
    if a >= 0 {
        (2 * a + b) / (2 * b)
    } else {
        -((2 * (-a) + b) / (2 * b))
    }
}

/// The multiple of `interval` nearest to `value` (ties away from zero);
/// a non-positive interval means no snapping.
pub open spec fn spec_round_to_interval(value: int, interval: int) -> int {
    if interval <= 0 {
        value
    } else {
        interval * rdiv(value, interval)
    }
}

/// `r` is the integer square root of `x`.
pub open spec fn is_sqrt(x: int, r: int) -> bool {
    0 <= r && r * r <= x && x < (r + 1) * (r + 1)
}

/// `|a| <= m`, spelled out for `i64` scalars.
pub open spec fn fits(a: int, m: int) -> bool {
    -m <= a <= m
}

/// Bound on a product from bounds on its factors.
pub proof fn lemma_mul_fits(x: int, y: int, mx: int, my: int)
    by (nonlinear_arith)
    requires
        fits(x, mx),
        fits(y, my),
        0 <= mx,
        0 <= my,
    ensures
        fits(x * y, mx * my),
{
}

/// A truncated quotient shrinks the magnitude bound by the divisor.
pub proof fn lemma_tdiv_fits(a: int, d: int, m: int)
    requires
        d >= 1,
        fits(a, m),
        0 <= m,
    ensures
        fits(tdiv(a, d), m / d),
        fits(tdiv(a, d), m),
{
    let n = if a >= 0 { a } else { -a };
    lemma_div_is_ordered(n, m, d);
    lemma_div_pos_is_pos(n, d);
    lemma_div_pos_is_pos(m, d);
    lemma_div_nonincreasing(m, d);
}

/// A truncated quotient of a non-negative value is non-negative.
pub proof fn lemma_tdiv_nonneg(a: int, d: int)
    requires
        a >= 0,
        d >= 1,
    ensures
        tdiv(a, d) >= 0,
{
    lemma_div_pos_is_pos(a, d);
}

/// Snapping a non-negative value yields a non-negative multiple.
pub proof fn lemma_round_nonneg(v: int, s: int)
    requires
        v >= 0,
    ensures
        spec_round_to_interval(v, s) >= 0,
{
    if s > 0 {
        lemma_div_pos_is_pos(2 * v + s, 2 * s);
        lemma_mul_nonnegative(s, rdiv(v, s));
    }
}

/// Truncated division of `i128` values, by cases on the sign.
pub fn div_trunc(a: i128, d: i128) -> (r: i128)
    requires
        d > 0,
        a > i128::MIN,
    ensures
        r == tdiv(a as int, d as int),
        fits(r as int, if a >= 0 { a as int } else { -(a as int) }),
{
    proof {
        lemma_tdiv_fits(a as int, d as int, if a >= 0 { a as int } else { -(a as int) });
    }
    if a >= 0 {
        proof {
            lemma_div_pos_is_pos(a as int, d as int);
            lemma_div_nonincreasing(a as int, d as int);
        }
        let q: u128 = (a as u128) / (d as u128);
        q as i128
    } else {
        proof {
            lemma_div_pos_is_pos(-(a as int), d as int);
            lemma_div_nonincreasing(-(a as int), d as int);
        }
        let q: u128 = ((-a) as u128) / (d as u128);
        -(q as i128)
    }
}

/// `a * b / d`, truncated toward zero, the product taken exactly in `i128`.
pub fn mul_div(a: i64, b: i64, d: i64) -> (r: i64)
    requires
        d > 0,
        fits(tdiv(a as int * b as int, d as int), i64::MAX as int),
    ensures
        r == tdiv(a as int * b as int, d as int),
{
    proof {
        lemma_mul_fits(a as int, b as int, i64::MAX as int + 1, i64::MAX as int + 1);
    }
    let p: i128 = (a as i128) * (b as i128);
    let q: i128 = div_trunc(p, d as i128);
    q as i64
}

/// Snaps `value` to the nearest multiple of `interval` (ties away from
/// zero); a non-positive interval leaves the value unchanged.
pub fn round_to_interval(value: i64, interval: i64) -> (r: i64)
    requires
        fits(value as int, 0x1000_0000_0000_0000),
        interval <= 0x1000_0000_0000_0000,
    ensures
        r == spec_round_to_interval(value as int, interval as int),
        interval <= 0 ==> r == value,
        interval > 0 ==> value - interval <= r <= value + interval,
{
    if interval <= 0 {
        return value;
    }
    let v: i128 = value as i128;
    let s: i128 = interval as i128;
    let q: i128 = if v >= 0 {
        ((2 * v + s) as u128 / (2 * s) as u128) as i128
    } else {
        -(((2 * (-v) + s) as u128 / (2 * s) as u128) as i128)
    };
    proof {
        lemma_rdiv_near(value as int, interval as int);
        lemma_tdiv_fits(2 * (value as int) + interval as int, 2 * (interval as int),
            0x3000_0000_0000_0000);
        lemma_tdiv_fits(2 * (-(value as int)) + interval as int, 2 * (interval as int),
            0x3000_0000_0000_0000);
    }
    let m: i128 = s * q;
    m as i64
}

/// The nearest multiple lies within one interval of the value.
proof fn lemma_rdiv_near(v: int, s: int)
    requires
        s > 0,
    ensures
        v - s <= s * rdiv(v, s) <= v + s,
{
    if v >= 0 {
        let q = (2 * v + s) / (2 * s);
        lemma_fundamental_div_mod(2 * v + s, 2 * s);
        let rem = (2 * v + s) % (2 * s);
        assert(2 * v + s == 2 * s * q + rem);
        assert(0 <= rem < 2 * s);
        assert(2 * (s * q) == 2 * s * q) by (nonlinear_arith);
        assert(v - s <= s * q <= v + s);
    } else {
        let q = (2 * (-v) + s) / (2 * s);
        lemma_fundamental_div_mod(2 * (-v) + s, 2 * s);
        let rem = (2 * (-v) + s) % (2 * s);
        assert(2 * (-v) + s == 2 * s * q + rem);
        assert(0 <= rem < 2 * s);
        assert(2 * (s * q) == 2 * s * q) by (nonlinear_arith);
        assert(-v - s <= s * q <= -v + s);
        assert(s * -q == -(s * q)) by (nonlinear_arith);
    }
}

/// Snapping is idempotent: snapping an already snapped value changes nothing.
pub proof fn lemma_round_to_interval_idempotent(v: int, s: int)
    requires
        s > 0,
    ensures
        spec_round_to_interval(spec_round_to_interval(v, s), s) == spec_round_to_interval(v, s),
{
    let k = rdiv(v, s);
    let m = s * k;
    if k >= 0 {
        lemma_mul_nonnegative(s, k);
        assert(2 * m + s == k * (2 * s) + s) by (nonlinear_arith)
            requires m == s * k;
        lemma_fundamental_div_mod_converse(2 * m + s, 2 * s, k, s);
        assert(rdiv(m, s) == k);
    } else {
        assert(m < 0) by (nonlinear_arith)
            requires m == s * k && s > 0 && k < 0;
        assert(2 * (-m) + s == (-k) * (2 * s) + s) by (nonlinear_arith)
            requires m == s * k;
        lemma_fundamental_div_mod_converse(2 * (-m) + s, 2 * s, -k, s);
        assert(rdiv(m, s) == -(-k));
    }
    assert(spec_round_to_interval(m, s) == s * rdiv(m, s));
    assert(s * rdiv(m, s) == m);
}

/// Integer square root of a `u128`, by bisection.
pub fn isqrt_u128(x: u128) -> (r: u64)
    ensures
        is_sqrt(x as int, r as int),
{
    if x == 0 {
        return 0;
    }
    let mut lo: u128 = 0;
    let mut hi: u128 = 0x1_0000_0000_0000_0000;
    proof {
        assert((0x1_0000_0000_0000_0000 as int) * (0x1_0000_0000_0000_0000 as int)
            > u128::MAX as int) by (nonlinear_arith);
    }
    while lo + 1 < hi
        invariant
            lo < hi,
            hi <= 0x1_0000_0000_0000_0000,
            (lo as int) * (lo as int) <= x as int,
            (x as int) < (hi as int) * (hi as int),
        decreases hi - lo,
    {
        let mid: u128 = lo + (hi - lo) / 2;
        proof {
            lemma_mul_inequality(mid as int, 0xffff_ffff_ffff_ffff, mid as int);
            lemma_mul_inequality(mid as int, 0xffff_ffff_ffff_ffff, 0xffff_ffff_ffff_ffff);
            assert((0xffff_ffff_ffff_ffff as int) * (0xffff_ffff_ffff_ffff as int)
                <= u128::MAX as int) by (nonlinear_arith);
            assert(mid as int * mid as int <= u128::MAX as int) by (nonlinear_arith)
                requires mid as int <= 0xffff_ffff_ffff_ffff;
        }
        let sq: u128 = mid * mid;
        if sq <= x {
            lo = mid;
        } else {
            hi = mid;
        }
    }
    proof {
        assert(hi == lo + 1);
    }
    lo as u64
}

} // verus!
