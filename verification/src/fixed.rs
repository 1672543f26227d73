//! Exact signed 16.16 fixed-point scalar arithmetic.
//!
//! A scalar is an `i64` holding `round(value * 65536)`. Every operation is
//! total: results that would leave the `i64` range saturate to the nearest
//! representable scalar, and division by zero yields zero. Each executable
//! operation is specified exactly by a spec-level twin (`fx_add_s`,
//! `fx_mul_s`, ...), so code built on this module can state its results as
//! closed-form functions of its inputs.

use vstd::arithmetic::div_mod::{lemma_div_nonincreasing, lemma_div_pos_is_pos};
use vstd::prelude::*;

verus! {

/// The scalar one: 2^16.
pub const FX_ONE: i64 = 65536;

/// Magnitude of a mathematical integer.
pub open spec fn abs_i(a: int) -> int {
    if a >= 0 {
        a
    } else {
        -a
    }
}

/// Saturation of a mathematical integer to the `i64` range.
pub open spec fn sat64(x: int) -> int {
    if x > i64::MAX as int {
        i64::MAX as int
    } else if x < i64::MIN as int {
        i64::MIN as int
    } else {
        x
    }
}

/// Division rounding toward zero, total: zero when the divisor is zero.
pub open spec fn tdiv(a: int, b: int) -> int {
    if b == 0 {
        0
    } else if (a >= 0) == (b >= 0) {
        abs_i(a) / abs_i(b)
    } else {
        -(abs_i(a) / abs_i(b))
    }
}

/// Saturating fixed-point addition.
pub open spec fn fx_add_s(a: i64, b: i64) -> i64 {
    sat64(a + b) as i64
}

/// Saturating fixed-point subtraction.
pub open spec fn fx_sub_s(a: i64, b: i64) -> i64 {
    sat64(a - b) as i64
}

/// Saturating fixed-point negation.
pub open spec fn fx_neg_s(a: i64) -> i64 {
    sat64(-a) as i64
}

/// Saturating fixed-point multiplication: `a * b / 2^16`, rounded toward zero.
pub open spec fn fx_mul_s(a: i64, b: i64) -> i64 {
    sat64(tdiv(a * b, 65536)) as i64
}

/// Saturating fixed-point division: `a * 2^16 / b`, rounded toward zero;
/// zero when `b` is zero.
pub open spec fn fx_div_s(a: i64, b: i64) -> i64 {
    sat64(tdiv(a * 65536, b as int)) as i64
}

/// Saturating division of a fixed-point scalar by a plain integer.
pub open spec fn fx_divi_s(a: i64, k: i64) -> i64 {
    sat64(tdiv(a as int, k as int)) as i64
}

/// Narrows an `i128` to `i64`, saturating at the bounds.
fn sat_narrow(x: i128) -> (r: i64)
    ensures
        r as int == sat64(x as int),
{
    if x > i64::MAX as i128 {
        i64::MAX
    } else if x < i64::MIN as i128 {
        i64::MIN
    } else {
        x as i64
    }
}

/// Division of `i128` values rounding toward zero.
fn div_trunc(a: i128, b: i128) -> (r: i128)
    requires
        a != i128::MIN,
        b != i128::MIN,
    ensures
        r as int == tdiv(a as int, b as int),
        abs_i(r as int) <= abs_i(a as int),
{
    if b == 0 {
        return 0;
    }
    let au: u128 = if a >= 0 {
        a as u128
    } else {
        (-a) as u128
    };
    let bu: u128 = if b >= 0 {
        b as u128
    } else {
        (-b) as u128
    };
    proof {
        assert(au as int == abs_i(a as int));
        assert(bu as int == abs_i(b as int));
    }
    let qu: u128 = au / bu;
    proof {
        lemma_div_nonincreasing(au as int, bu as int);
        lemma_div_pos_is_pos(au as int, bu as int);
    }
    let q = qu as i128;
    if (a >= 0) == (b >= 0) {
        q
    } else {
        -q
    }
}

/// Saturating fixed-point addition.
pub fn fx_add(a: i64, b: i64) -> (r: i64)
    ensures
        r == fx_add_s(a, b),
{
    sat_narrow(a as i128 + b as i128)
}

/// Saturating fixed-point subtraction.
pub fn fx_sub(a: i64, b: i64) -> (r: i64)
    ensures
        r == fx_sub_s(a, b),
{
    sat_narrow(a as i128 - b as i128)
}

/// Saturating fixed-point negation.
pub fn fx_neg(a: i64) -> (r: i64)
    ensures
        r == fx_neg_s(a),
{
    sat_narrow(-(a as i128))
}

proof fn lemma_i64_product_fits(a: i64, b: i64)
    ensures
        -0x40000000000000000000000000000000 <= a * b,
        a * b <= 0x40000000000000000000000000000000,
{
    assert(-0x40000000000000000000000000000000 <= a as int * b as int <= 0x40000000000000000000000000000000)
        by (nonlinear_arith)
        requires
            -0x8000000000000000 <= a as int <= 0x7fffffffffffffff,
            -0x8000000000000000 <= b as int <= 0x7fffffffffffffff;
}

/// Saturating fixed-point multiplication.
pub fn fx_mul(a: i64, b: i64) -> (r: i64)
    ensures
        r == fx_mul_s(a, b),
{
    proof {
        lemma_i64_product_fits(a, b);
    }
    let p: i128 = (a as i128) * (b as i128);
    sat_narrow(div_trunc(p, 65536))
}

/// Saturating fixed-point division; zero when the divisor is zero.
pub fn fx_div(a: i64, b: i64) -> (r: i64)
    ensures
        r == fx_div_s(a, b),
{
    let p: i128 = (a as i128) * 65536;
    sat_narrow(div_trunc(p, b as i128))
}

/// Saturating division of a fixed-point scalar by a plain integer.
pub fn fx_divi(a: i64, k: i64) -> (r: i64)
    ensures
        r == fx_divi_s(a, k),
{
    sat_narrow(div_trunc(a as i128, k as i128))
}

/// Holds exactly when `r` is the integer square root of `n`.
pub open spec fn is_isqrt(n: int, r: int) -> bool {
    0 <= r && r * r <= n && n < (r + 1) * (r + 1)
}

/// The integer square root of a non-negative integer.
pub open spec fn isqrt_s(n: int) -> int {
    choose|r: int| is_isqrt(n, r)
}

/// Square root of a fixed-point scalar: `sqrt(a / 2^16) * 2^16`, rounded
/// down; zero for non-positive input.
pub open spec fn fx_sqrt_s(a: i64) -> i64 {
    if a <= 0 {
        0
    } else {
        isqrt_s(a * 65536) as i64
    }
}

/// The integer square root is unique.
pub proof fn lemma_isqrt_unique(n: int, r1: int, r2: int)
    requires
        is_isqrt(n, r1),
        is_isqrt(n, r2),
    ensures
        r1 == r2,
{
    if r1 < r2 {
        assert((r1 + 1) * (r1 + 1) <= r2 * r2) by (nonlinear_arith)
            requires
                0 <= r1,
                0 <= r2,
                r1 + 1 <= r2;
    }
    if r2 < r1 {
        assert((r2 + 1) * (r2 + 1) <= r1 * r1) by (nonlinear_arith)
            requires
                0 <= r1,
                0 <= r2,
                r2 + 1 <= r1;
    }
}

/// Integer square root by bisection.
fn isqrt_u128(n: u128) -> (r: u128)
    requires
        n < 0x40000000000000000000000000000000,
    ensures
        is_isqrt(n as int, r as int),
{
    let mut lo: u128 = 0;
    let mut hi: u128 = 0x8000000000000000;
    proof {
        assert((hi as int) * (hi as int) == 0x40000000000000000000000000000000);
    }
    while hi - lo > 1
        invariant
            lo < hi <= 0x8000000000000000,
            (lo as int) * (lo as int) <= n as int,
            (n as int) < (hi as int) * (hi as int),
        decreases hi - lo,
    {
        let mid = lo + (hi - lo) / 2;
        proof {
            assert(lo < mid < hi);
            assert((mid as int) * (mid as int) <= 0x40000000000000000000000000000000)
                by (nonlinear_arith)
                requires
                    0 <= mid as int <= 0x8000000000000000;
        }
        if mid * mid <= n {
            lo = mid;
        } else {
            hi = mid;
        }
    }
    lo
}

/// Square root of a fixed-point scalar, rounded down.
pub fn fx_sqrt(a: i64) -> (r: i64)
    ensures
        r == fx_sqrt_s(a),
{
    if a <= 0 {
        return 0;
    }
    let n: u128 = (a as u128) * 65536;
    proof {
        assert((a as int) * 65536 < 0x40000000000000000000000000000000) by (nonlinear_arith)
            requires
                0 < a as int <= 0x7fffffffffffffff;
    }
    let r = isqrt_u128(n);
    proof {
        assert(is_isqrt(n as int, r as int));
        assert((r as int) * (r as int) <= n as int);
        assert((r as int) < 0x8000000000000000) by (nonlinear_arith)
            requires
                0 <= r as int,
                (r as int) * (r as int) <= n as int,
                (n as int) < 0x40000000000000000000000000000000;
        lemma_isqrt_unique(n as int, r as int, isqrt_s(n as int));
    }
    r as i64
}

} // verus!
