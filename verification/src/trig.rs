//! Angles and trigonometry in 16.16 fixed point.
//!
//! Angles are fixed-point radians unless a `Degrees` value says otherwise.
//! Sine and cosine reduce the angle into one turn and evaluate a short
//! Taylor polynomial on the first quarter; both are exact functions of
//! their argument, mirrored by spec-level twins, and are exactly `0` and
//! `FX_ONE` at angle zero.

use crate::fixed::{
    fx_add, fx_add_s, fx_divi, fx_divi_s, fx_mul, fx_mul_s, fx_neg, fx_neg_s, fx_sub, fx_sub_s,
    FX_ONE,
};
use vstd::arithmetic::div_mod::{lemma_fundamental_div_mod, lemma_fundamental_div_mod_converse};
use vstd::prelude::*;

verus! {

/// Fixed-point pi.
pub const FX_PI: i64 = 205887;

/// Fixed-point pi/2.
pub const FX_HALF_PI: i64 = 102944;

/// Fixed-point 2*pi, one full turn.
pub const FX_TWO_PI: i64 = 411775;

/// An angle in fixed-point radians.
#[derive(Clone, Copy, Debug, PartialEq, Eq, Structural)]
pub struct Radians(pub i64);

/// An angle in fixed-point degrees.
#[derive(Clone, Copy, Debug, PartialEq, Eq, Structural)]
pub struct Degrees(pub i64);

/// Radians corresponding to a fixed-point degree count: `d * pi / 180`.
pub open spec fn deg_to_rad_s(d: i64) -> i64 {
    fx_divi_s(fx_mul_s(d, FX_PI), 180)
}

impl Degrees {
    /// Converts the angle to radians; the one place degrees become radians.
    pub fn into_radians(self) -> (r: Radians)
        ensures
            r.0 == deg_to_rad_s(self.0),
    {
        Radians(fx_divi(fx_mul(self.0, FX_PI), 180))
    }
}

/// Euclidean remainder of an angle by one turn, in `[0, FX_TWO_PI)`.
pub fn emod_two_pi(a: i64) -> (r: i64)
    ensures
        r as int == (a as int) % (FX_TWO_PI as int),
        0 <= r < FX_TWO_PI,
{
    proof {
        lemma_fundamental_div_mod(a as int, 411775);
    }
    if a >= 0 {
        let r = ((a as u64) % 411775) as i64;
        r
    } else {
        let k: u128 = (-(a as i128)) as u128;
        let m = (k % 411775) as u64;
        proof {
            let ki = -(a as int);
            lemma_fundamental_div_mod(ki, 411775);
            let q = ki / 411775;
            if ki % 411775 == 0 {
                lemma_fundamental_div_mod_converse(a as int, 411775, -q, 0);
            } else {
                lemma_fundamental_div_mod_converse(
                    a as int,
                    411775,
                    -q - 1,
                    411775 - (ki % 411775),
                );
            }
        }
        if m == 0 {
            0
        } else {
            411775 - (m as i64)
        }
    }
}

/// Taylor polynomial for sine on the first quarter turn:
/// `x - x^3/6 + x^5/120 - x^7/5040`.
pub open spec fn sin_quarter_s(x: i64) -> i64 {
    let x2 = fx_mul_s(x, x);
    let x3 = fx_mul_s(x2, x);
    let x5 = fx_mul_s(x3, x2);
    let x7 = fx_mul_s(x5, x2);
    fx_sub_s(fx_add_s(fx_sub_s(x, fx_divi_s(x3, 6)), fx_divi_s(x5, 120)), fx_divi_s(x7, 5040))
}

/// Taylor polynomial for cosine on the first quarter turn:
/// `1 - x^2/2 + x^4/24 - x^6/720 + x^8/40320`.
pub open spec fn cos_quarter_s(x: i64) -> i64 {
    let x2 = fx_mul_s(x, x);
    let x4 = fx_mul_s(x2, x2);
    let x6 = fx_mul_s(x4, x2);
    let x8 = fx_mul_s(x4, x4);
    fx_add_s(
        fx_sub_s(fx_add_s(fx_sub_s(FX_ONE, fx_divi_s(x2, 2)), fx_divi_s(x4, 24)), fx_divi_s(x6, 720)),
        fx_divi_s(x8, 40320),
    )
}

/// Sine on a half turn `[0, FX_PI]`, folded onto the first quarter.
pub open spec fn sin_half_s(x: int) -> i64 {
    if x <= FX_HALF_PI as int {
        sin_quarter_s(x as i64)
    } else {
        sin_quarter_s((FX_PI as int - x) as i64)
    }
}

/// Cosine on a half turn `[0, FX_PI]`, folded onto the first quarter.
pub open spec fn cos_half_s(x: int) -> i64 {
    if x <= FX_HALF_PI as int {
        cos_quarter_s(x as i64)
    } else {
        fx_neg_s(cos_quarter_s((FX_PI as int - x) as i64))
    }
}

/// Sine of a fixed-point angle in radians.
pub open spec fn fx_sin_s(a: i64) -> i64 {
    let r = (a as int) % (FX_TWO_PI as int);
    if r < FX_PI as int {
        sin_half_s(r)
    } else {
        fx_neg_s(sin_half_s(r - FX_PI as int))
    }
}

/// Cosine of a fixed-point angle in radians.
pub open spec fn fx_cos_s(a: i64) -> i64 {
    let r = (a as int) % (FX_TWO_PI as int);
    if r < FX_PI as int {
        cos_half_s(r)
    } else {
        fx_neg_s(cos_half_s(r - FX_PI as int))
    }
}

fn sin_quarter(x: i64) -> (r: i64)
    ensures
        r == sin_quarter_s(x),
{
    let x2 = fx_mul(x, x);
    let x3 = fx_mul(x2, x);
    let x5 = fx_mul(x3, x2);
    let x7 = fx_mul(x5, x2);
    fx_sub(fx_add(fx_sub(x, fx_divi(x3, 6)), fx_divi(x5, 120)), fx_divi(x7, 5040))
}

fn cos_quarter(x: i64) -> (r: i64)
    ensures
        r == cos_quarter_s(x),
{
    let x2 = fx_mul(x, x);
    let x4 = fx_mul(x2, x2);
    let x6 = fx_mul(x4, x2);
    let x8 = fx_mul(x4, x4);
    fx_add(
        fx_sub(fx_add(fx_sub(FX_ONE, fx_divi(x2, 2)), fx_divi(x4, 24)), fx_divi(x6, 720)),
        fx_divi(x8, 40320),
    )
}

/// Sine of a fixed-point angle in radians.
pub fn fx_sin(a: i64) -> (r: i64)
    ensures
        r == fx_sin_s(a),
{
    let red = emod_two_pi(a);
    if red < FX_PI {
        if red <= FX_HALF_PI {
            sin_quarter(red)
        } else {
            sin_quarter(FX_PI - red)
        }
    } else {
        let x = red - FX_PI;
        if x <= FX_HALF_PI {
            fx_neg(sin_quarter(x))
        } else {
            fx_neg(sin_quarter(FX_PI - x))
        }
    }
}

/// Cosine of a fixed-point angle in radians.
pub fn fx_cos(a: i64) -> (r: i64)
    ensures
        r == fx_cos_s(a),
{
    let red = emod_two_pi(a);
    if red < FX_PI {
        if red <= FX_HALF_PI {
            cos_quarter(red)
        } else {
            fx_neg(cos_quarter(FX_PI - red))
        }
    } else {
        let x = red - FX_PI;
        if x <= FX_HALF_PI {
            fx_neg(cos_quarter(x))
        } else {
            fx_neg(fx_neg(cos_quarter(FX_PI - x)))
        }
    }
}

} // verus!
