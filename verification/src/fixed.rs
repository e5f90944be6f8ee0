//! Fixed-point scalar arithmetic shared by every controller.
//!
//! A scalar such as an inflation rate of `2.8` world units is stored as the
//! `i64` value `2_800_000`: there are [`SCALE`] sub-units per world unit.
//! Division helpers round in a stated direction so that contracts can speak
//! about the exact value a computation produces.

use vstd::prelude::*;
use vstd::arithmetic::div_mod::{
    lemma_fundamental_div_mod, lemma_mod_division_less_than_divisor,
};

verus! {

/// Fixed-point sub-units per one world unit.
pub const SCALE: i64 = 1_000_000;

/// Mathematical floor division (round toward negative infinity).
/// `int` division in specifications is Euclidean, which coincides with
/// floor division whenever the divisor is positive.
pub open spec fn floor_div(a: int, b: int) -> int {
    a / b
}

/// Mathematical ceiling division (round toward positive infinity),
/// for a positive divisor.
pub open spec fn ceil_div(a: int, b: int) -> int {
    (a + b - 1) / b
}

/// Halving that rounds toward zero, matching the truncation a symmetric
/// resize anchor applies to an odd size difference.
pub open spec fn half_toward_zero(a: int) -> int {
    if a >= 0 {
        a / 2
    } else {
        -((-a) / 2)
    }
}

/// The value `v` clamped into the inclusive interval `[lo, hi]`.
pub open spec fn clamped(v: int, lo: int, hi: int) -> int {
    if v < lo {
        lo
    } else if v > hi {
        hi
    } else {
        v
    }
}

/// The magnitude of a value.
pub open spec fn abs_int(a: int) -> int {
    if a >= 0 {
        a
    } else {
        -a
    }
}

/// The smaller of two values.
pub open spec fn min_int(a: int, b: int) -> int {
    if a <= b {
        a
    } else {
        b
    }
}

/// The larger of two values.
pub open spec fn max_int(a: int, b: int) -> int {
    if a >= b {
        a
    } else {
        b
    }
}

/// Floor division stays between the dividend and zero when the divisor is
/// at least one, so the quotient always fits the dividend's machine type.
pub proof fn lemma_floor_div_in_range(a: int, b: int)
    requires
        1 <= b,
    ensures
        a >= 0 ==> 0 <= floor_div(a, b) <= a,
        a < 0 ==> a <= floor_div(a, b) <= 0,
{
    lemma_fundamental_div_mod(a, b);
    lemma_mod_division_less_than_divisor(a, b);
    let q = a / b;
    let r = a % b;
    assert((a >= 0 ==> 0 <= q <= a) && (a < 0 ==> a <= q <= 0)) by (nonlinear_arith)
        requires
            a == b * q + r,
            0 <= r < b,
            1 <= b,
    ;
}

/// Ceiling division also stays between the dividend and zero when the
/// divisor is at least one.
pub proof fn lemma_ceil_div_in_range(a: int, b: int)
    requires
        1 <= b,
    ensures
        a >= 0 ==> 0 <= ceil_div(a, b) <= a,
        a < 0 ==> a <= ceil_div(a, b) <= 0,
{
    lemma_ceil_div_bounds(a, b);
    let q = ceil_div(a, b);
    assert((a >= 0 ==> 0 <= q <= a) && (a < 0 ==> a <= q <= 0)) by (nonlinear_arith)
        requires
            b * (q - 1) < a <= b * q,
            1 <= b,
    ;
}

/// Halving toward zero also stays between its argument and zero.
pub proof fn lemma_half_in_range(a: int)
    ensures
        a >= 0 ==> 0 <= half_toward_zero(a) <= a,
        a < 0 ==> a <= half_toward_zero(a) <= 0,
{
    if a >= 0 {
        lemma_floor_div_in_range(a, 2);
    } else {
        lemma_floor_div_in_range(-a, 2);
    }
}

/// The defining property of floor division: `b * q <= a < b * (q + 1)`.
pub proof fn lemma_floor_div_bounds(a: int, b: int)
    requires
        1 <= b,
    ensures
        b * floor_div(a, b) <= a < b * (floor_div(a, b) + 1),
{
    lemma_fundamental_div_mod(a, b);
    lemma_mod_division_less_than_divisor(a, b);
    let q = a / b;
    let r = a % b;
    assert(b * q <= a < b * (q + 1)) by (nonlinear_arith)
        requires
            a == b * q + r,
            0 <= r < b,
            1 <= b,
    ;
}

/// The defining property of ceiling division: `b * (q - 1) < a <= b * q`.
pub proof fn lemma_ceil_div_bounds(a: int, b: int)
    requires
        1 <= b,
    ensures
        b * (ceil_div(a, b) - 1) < a <= b * ceil_div(a, b),
{
    lemma_floor_div_bounds(a + b - 1, b);
    let q = ceil_div(a, b);
    assert(b * (q - 1) < a <= b * q) by (nonlinear_arith)
        requires
            b * q <= a + b - 1 < b * (q + 1),
            1 <= b,
    ;
}

/// Exact floor division of `i64` values by a positive divisor.
pub fn floor_div_i64(a: i64, b: i64) -> (q: i64)
    requires
        1 <= b,
    ensures
        q == floor_div(a as int, b as int),
{
    proof {
        lemma_floor_div_in_range(a as int, b as int);
    }
    match a.checked_div_euclid(b) {
        Some(q) => q,
        None => 0,
    }
}

/// Exact ceiling division of `i64` values by a positive divisor.
pub fn ceil_div_i64(a: i64, b: i64) -> (q: i64)
    requires
        1 <= b,
        i64::MIN < a,
        a + b - 1 <= i64::MAX,
    ensures
        q == ceil_div(a as int, b as int),
{
    floor_div_i64((a - 1) + b, b)
}

/// Exact halving toward zero.
pub fn half_i64(a: i64) -> (h: i64)
    requires
        i64::MIN < a,
    ensures
        h == half_toward_zero(a as int),
{
    if a >= 0 {
        proof {
            lemma_floor_div_in_range(a as int, 2);
        }
        match a.checked_div_euclid(2) {
            Some(h) => h,
            None => 0,
        }
    } else {
        proof {
            lemma_floor_div_in_range(-a as int, 2);
        }
        let m = -a;
        match m.checked_div_euclid(2) {
            Some(h) => -h,
            None => 0,
        }
    }
}

/// Clamp a value into the inclusive interval `[lo, hi]`.
pub fn clamp_i64(v: i64, lo: i64, hi: i64) -> (c: i64)
    requires
        lo <= hi,
    ensures
        c == clamped(v as int, lo as int, hi as int),
        lo <= c <= hi,
{
    if v < lo {
        lo
    } else if v > hi {
        hi
    } else {
        v
    }
}

/// The larger of two values.
pub fn max_i64(a: i64, b: i64) -> (m: i64)
    ensures
        m == max_int(a as int, b as int),
{
    if a >= b {
        a
    } else {
        b
    }
}

/// The smaller of two values.
pub fn min_i64(a: i64, b: i64) -> (m: i64)
    ensures
        m == min_int(a as int, b as int),
{
    if a <= b {
        a
    } else {
        b
    }
}

} // verus!
