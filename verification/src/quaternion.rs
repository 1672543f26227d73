//! Rotation quaternions over fixed-point scalars.
//!
//! Composition is the Hamilton product, which is not commutative: the order
//! of the factors is defined by the call site.

use crate::fixed::{
    fx_add, fx_add_s, fx_div, fx_div_s, fx_divi, fx_divi_s, fx_mul, fx_mul_s, fx_sqrt, fx_sqrt_s,
    fx_sub, fx_sub_s, is_isqrt, tdiv, FX_ONE,
};
use crate::trig::{fx_cos, fx_cos_s, fx_sin, fx_sin_s, Radians};
use crate::vector::Vector3;
use vstd::arithmetic::div_mod::lemma_div_multiples_vanish;
use vstd::prelude::*;

verus! {

/// A rotation quaternion `w + x*i + y*j + z*k` of fixed-point scalars.
#[derive(Clone, Copy, Debug, PartialEq, Eq, Structural)]
pub struct Quaternion {
    pub w: i64,
    pub x: i64,
    pub y: i64,
    pub z: i64,
}

/// The identity rotation.
pub open spec fn quat_identity_s() -> Quaternion {
    Quaternion { w: FX_ONE as i64, x: 0, y: 0, z: 0 }
}

/// Hamilton product of two quaternions.
pub open spec fn quat_mul_s(a: Quaternion, b: Quaternion) -> Quaternion {
    Quaternion {
        w: fx_sub_s(
            fx_sub_s(fx_sub_s(fx_mul_s(a.w, b.w), fx_mul_s(a.x, b.x)), fx_mul_s(a.y, b.y)),
            fx_mul_s(a.z, b.z),
        ),
        x: fx_sub_s(
            fx_add_s(fx_add_s(fx_mul_s(a.w, b.x), fx_mul_s(a.x, b.w)), fx_mul_s(a.y, b.z)),
            fx_mul_s(a.z, b.y),
        ),
        y: fx_sub_s(
            fx_add_s(fx_add_s(fx_mul_s(a.w, b.y), fx_mul_s(a.y, b.w)), fx_mul_s(a.z, b.x)),
            fx_mul_s(a.x, b.z),
        ),
        z: fx_sub_s(
            fx_add_s(fx_add_s(fx_mul_s(a.w, b.z), fx_mul_s(a.z, b.w)), fx_mul_s(a.x, b.y)),
            fx_mul_s(a.y, b.x),
        ),
    }
}

/// Squared norm of a quaternion.
pub open spec fn quat_norm_sq_s(q: Quaternion) -> i64 {
    fx_add_s(
        fx_add_s(fx_add_s(fx_mul_s(q.w, q.w), fx_mul_s(q.x, q.x)), fx_mul_s(q.y, q.y)),
        fx_mul_s(q.z, q.z),
    )
}

/// Normalization of a quaternion; a quaternion of norm zero is left
/// unchanged.
pub open spec fn quat_normalize_s(q: Quaternion) -> Quaternion {
    let m = fx_sqrt_s(quat_norm_sq_s(q));
    if m == 0 {
        q
    } else {
        Quaternion {
            w: fx_div_s(q.w, m),
            x: fx_div_s(q.x, m),
            y: fx_div_s(q.y, m),
            z: fx_div_s(q.z, m),
        }
    }
}

/// The rotation by `angle` around `axis`, which is expected to have unit
/// length: `(cos(angle/2), axis * sin(angle/2))`.
pub open spec fn quat_from_axis_angle_s(axis: Vector3, angle: i64) -> Quaternion {
    let half = fx_divi_s(angle, 2);
    let s = fx_sin_s(half);
    Quaternion {
        w: fx_cos_s(half),
        x: fx_mul_s(axis.x, s),
        y: fx_mul_s(axis.y, s),
        z: fx_mul_s(axis.z, s),
    }
}

impl Quaternion {
    /// Builds a quaternion from its scalar part followed by the three
    /// imaginary parts.
    pub fn new(w: i64, xi: i64, yj: i64, zk: i64) -> (r: Self)
        ensures
            r == (Quaternion { w, x: xi, y: yj, z: zk }),
    {
        Quaternion { w, x: xi, y: yj, z: zk }
    }

    /// The identity rotation.
    pub fn identity() -> (r: Self)
        ensures
            r == quat_identity_s(),
    {
        Quaternion { w: FX_ONE, x: 0, y: 0, z: 0 }
    }

    /// The rotation by `angle` around `axis`, which is expected to have
    /// unit length.
    pub fn rotation_from_axis_angle(axis: Vector3, angle: Radians) -> (r: Self)
        ensures
            r == quat_from_axis_angle_s(axis, angle.0),
    {
        let half = fx_divi(angle.0, 2);
        let s = fx_sin(half);
        let c = fx_cos(half);
        Quaternion { w: c, x: fx_mul(axis.x, s), y: fx_mul(axis.y, s), z: fx_mul(axis.z, s) }
    }

    /// Scales the quaternion to unit norm; a quaternion of norm zero is
    /// left unchanged.
    pub fn normalize(self) -> (r: Self)
        ensures
            r == quat_normalize_s(self),
    {
        let n = fx_add(
            fx_add(fx_add(fx_mul(self.w, self.w), fx_mul(self.x, self.x)), fx_mul(self.y, self.y)),
            fx_mul(self.z, self.z),
        );
        let m = fx_sqrt(n);
        if m == 0 {
            self
        } else {
            Quaternion {
                w: fx_div(self.w, m),
                x: fx_div(self.x, m),
                y: fx_div(self.y, m),
                z: fx_div(self.z, m),
            }
        }
    }

    /// Hamilton product; composes `self` then `rhs`.
    pub fn mul(self, rhs: Self) -> (r: Self)
        ensures
            r == quat_mul_s(self, rhs),
    {
        Quaternion {
            w: fx_sub(
                fx_sub(fx_sub(fx_mul(self.w, rhs.w), fx_mul(self.x, rhs.x)), fx_mul(self.y, rhs.y)),
                fx_mul(self.z, rhs.z),
            ),
            x: fx_sub(
                fx_add(fx_add(fx_mul(self.w, rhs.x), fx_mul(self.x, rhs.w)), fx_mul(self.y, rhs.z)),
                fx_mul(self.z, rhs.y),
            ),
            y: fx_sub(
                fx_add(fx_add(fx_mul(self.w, rhs.y), fx_mul(self.y, rhs.w)), fx_mul(self.z, rhs.x)),
                fx_mul(self.x, rhs.z),
            ),
            z: fx_sub(
                fx_add(fx_add(fx_mul(self.w, rhs.z), fx_mul(self.z, rhs.w)), fx_mul(self.x, rhs.y)),
                fx_mul(self.y, rhs.x),
            ),
        }
    }
}

/// Multiplying a scalar by the fixed-point one is the identity.
pub proof fn lemma_fx_mul_one(a: i64)
    ensures
        fx_mul_s(a, FX_ONE) == a,
{
    if a >= 0 {
        lemma_div_multiples_vanish(a as int, 65536);
        assert(tdiv(a * 65536, 65536) == a);
    } else {
        lemma_div_multiples_vanish(-(a as int), 65536);
        assert(tdiv(a * 65536, 65536) == a);
    }
}

/// Multiplying a scalar by zero gives zero.
pub proof fn lemma_fx_mul_zero(a: i64)
    ensures
        fx_mul_s(a, 0) == 0,
{
    assert(tdiv(a * 0, 65536) == 0);
}

/// Dividing a scalar by the fixed-point one is the identity.
pub proof fn lemma_fx_div_one(a: i64)
    ensures
        fx_div_s(a, FX_ONE) == a,
{
    if a >= 0 {
        lemma_div_multiples_vanish(a as int, 65536);
    } else {
        lemma_div_multiples_vanish(-(a as int), 65536);
    }
}

/// The identity is a right unit of the Hamilton product.
pub proof fn lemma_quat_mul_identity_right(q: Quaternion)
    ensures
        quat_mul_s(q, quat_identity_s()) == q,
{
    lemma_fx_mul_one(q.w);
    lemma_fx_mul_one(q.x);
    lemma_fx_mul_one(q.y);
    lemma_fx_mul_one(q.z);
    lemma_fx_mul_zero(q.w);
    lemma_fx_mul_zero(q.x);
    lemma_fx_mul_zero(q.y);
    lemma_fx_mul_zero(q.z);
}

/// The identity is a fixed point of normalization.
pub proof fn lemma_quat_normalize_identity()
    ensures
        quat_normalize_s(quat_identity_s()) == quat_identity_s(),
{
    let q = quat_identity_s();
    lemma_fx_mul_one(q.w);
    lemma_fx_mul_zero(0);
    assert(quat_norm_sq_s(q) == FX_ONE);
    assert(is_isqrt(65536int * 65536, 65536int));
    crate::fixed::lemma_isqrt_unique(
        65536int * 65536,
        65536int,
        crate::fixed::isqrt_s(65536int * 65536),
    );
    assert(fx_sqrt_s(FX_ONE) == FX_ONE);
    lemma_fx_div_one(q.w);
    lemma_fx_div_one(0);
}

} // verus!
