//! Fixed-point scalar arithmetic: truncating division by a positive
//! divisor (the rounding Rust's `/` performs on machine integers) together
//! with the error bounds every camera and placement proof rests on, and a
//! clamp helper.

use vstd::prelude::*;
use vstd::arithmetic::div_mod::{lemma_fundamental_div_mod, lemma_mod_bound};

verus! {

/// Quotient of `a` and a positive `b`, rounded toward zero.
pub open spec fn div_tz(a: int, b: int) -> int
    recommends
        b > 0,
{
    if a >= 0 {
        a / b
    } else {
        -((-a) / b)
    }
}

/// `v` forced into the interval `[lo, hi]`.
pub open spec fn spec_clamp(v: int, lo: int, hi: int) -> int
    recommends
        lo <= hi,
{
    if v < lo {
        lo
    } else if v > hi {
        hi
    } else {
        v
    }
}

/// Absolute value.
pub open spec fn abs(a: int) -> int {
    if a >= 0 {
        a
    } else {
        -a
    }
}

/// Truncating division loses strictly less than one divisor:
/// `b * div_tz(a, b)` lies within `b - 1` of `a`, on the zero side of it.
pub proof fn lemma_div_tz_bound(a: int, b: int)
    requires
        b > 0,
    ensures
        a - (b - 1) <= b * div_tz(a, b) <= a + (b - 1),
        a >= 0 ==> b * div_tz(a, b) <= a,
        a <= 0 ==> a <= b * div_tz(a, b),
        a >= 0 ==> div_tz(a, b) >= 0,
        a <= 0 ==> div_tz(a, b) <= 0,
{
    if a >= 0 {
        lemma_fundamental_div_mod(a, b);
        lemma_mod_bound(a, b);
        vstd::arithmetic::div_mod::lemma_div_pos_is_pos(a, b);
    } else {
        lemma_fundamental_div_mod(-a, b);
        lemma_mod_bound(-a, b);
        vstd::arithmetic::div_mod::lemma_div_pos_is_pos(-a, b);
        let q = (-a) / b;
        assert(b * (-q) == -(b * q)) by (nonlinear_arith);
    }
}

/// A multiple of the divisor divides exactly.
pub proof fn lemma_div_tz_exact(k: int, b: int)
    requires
        b > 0,
    ensures
        div_tz(k * b, b) == k,
{
    if k >= 0 {
        vstd::arithmetic::div_mod::lemma_div_multiples_vanish(k, b);
        assert(k * b >= 0) by (nonlinear_arith)
            requires
                k >= 0,
                b > 0,
        ;
        assert(b * k == k * b) by (nonlinear_arith);
    } else {
        vstd::arithmetic::div_mod::lemma_div_multiples_vanish(-k, b);
        assert(k * b < 0) by (nonlinear_arith)
            requires
                k < 0,
                b > 0,
        ;
        assert(-(k * b) == b * -k) by (nonlinear_arith);
    }
}

/// The quotient's magnitude is bounded by any multiple bound on `a`.
pub proof fn lemma_div_tz_le(a: int, b: int, m: int)
    requires
        b > 0,
        m >= 0,
        -(m * b) <= a <= m * b,
    ensures
        -m <= div_tz(a, b) <= m,
{
    lemma_div_tz_bound(a, b);
    let q = div_tz(a, b);
    if q > m {
        assert(b * q >= b * (m + 1)) by (nonlinear_arith)
            requires
                b > 0,
                q >= m + 1,
        ;
        assert(b * (m + 1) == m * b + b) by (nonlinear_arith);
    }
    if q < -m {
        assert(b * q <= b * (-m - 1)) by (nonlinear_arith)
            requires
                b > 0,
                q <= -m - 1,
        ;
        assert(b * (-m - 1) == -(m * b) - b) by (nonlinear_arith);
    }
}

/// Truncating division is monotone in the dividend.
pub proof fn lemma_div_tz_ordered(a1: int, a2: int, b: int)
    requires
        b > 0,
        a1 <= a2,
    ensures
        div_tz(a1, b) <= div_tz(a2, b),
{
    if a1 >= 0 {
        vstd::arithmetic::div_mod::lemma_div_is_ordered(a1, a2, b);
    } else if a2 < 0 {
        vstd::arithmetic::div_mod::lemma_div_is_ordered(-a2, -a1, b);
    } else {
        lemma_div_tz_bound(a1, b);
        lemma_div_tz_bound(a2, b);
    }
}

/// Truncating division of an `i64` by a positive divisor, computed on
/// magnitudes so that the rounding direction is explicit.
pub fn div_trunc(a: i64, b: i64) -> (q: i64)
    requires
        b >= 1,
        a != i64::MIN,
    ensures
        q == div_tz(a as int, b as int),
{
    if a >= 0 {
        let q = (a as u64) / (b as u64);
        proof {
            vstd::arithmetic::div_mod::lemma_div_nonincreasing(a as int, b as int);
            vstd::arithmetic::div_mod::lemma_div_pos_is_pos(a as int, b as int);
        }
        q as i64
    } else {
        let m = (-a) as u64;
        let q = m / (b as u64);
        proof {
            vstd::arithmetic::div_mod::lemma_div_nonincreasing(m as int, b as int);
            vstd::arithmetic::div_mod::lemma_div_pos_is_pos(m as int, b as int);
        }
        -(q as i64)
    }
}

/// Truncating division of an `i128` by a positive divisor.
pub fn div_trunc_wide(a: i128, b: i128) -> (q: i128)
    requires
        b >= 1,
        a != i128::MIN,
    ensures
        q == div_tz(a as int, b as int),
{
    if a >= 0 {
        let q = (a as u128) / (b as u128);
        proof {
            vstd::arithmetic::div_mod::lemma_div_nonincreasing(a as int, b as int);
            vstd::arithmetic::div_mod::lemma_div_pos_is_pos(a as int, b as int);
        }
        q as i128
    } else {
        let m = (-a) as u128;
        let q = m / (b as u128);
        proof {
            vstd::arithmetic::div_mod::lemma_div_nonincreasing(m as int, b as int);
            vstd::arithmetic::div_mod::lemma_div_pos_is_pos(m as int, b as int);
        }
        -(q as i128)
    }
}

/// A wide intermediate value forced into `[lo, hi]` and narrowed.
pub fn clamp_wide_to_i64(v: i128, lo: i64, hi: i64) -> (r: i64)
    requires
        lo <= hi,
    ensures
        r == spec_clamp(v as int, lo as int, hi as int),
        lo <= r <= hi,
{
    if v < lo as i128 {
        lo
    } else if v > hi as i128 {
        hi
    } else {
        v as i64
    }
}

/// `v` forced into `[lo, hi]`.
pub fn clamp_i64(v: i64, lo: i64, hi: i64) -> (r: i64)
    requires
        lo <= hi,
    ensures
        r == spec_clamp(v as int, lo as int, hi as int),
        lo <= r <= hi,
{
    if v < lo {
        lo
    } else if v > hi {
        hi
    } else {
        v
    }
}

} // verus!
