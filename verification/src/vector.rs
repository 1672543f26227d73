//! 2, 3 and 4 component vectors over fixed-point scalars.

use crate::fixed::{
    fx_add, fx_add_s, fx_div, fx_div_s, fx_mul, fx_mul_s, fx_neg, fx_neg_s, fx_sqrt, fx_sqrt_s,
    FX_ONE,
};
use vstd::prelude::*;

verus! {

/// A 2D vector of fixed-point scalars.
#[derive(Clone, Copy, Debug, PartialEq, Eq, Structural)]
pub struct Vector2 {
    pub x: i64,
    pub y: i64,
}

/// Squared length of a 2D vector.
pub open spec fn v2_norm_sq_s(v: Vector2) -> i64 {
    fx_add_s(fx_mul_s(v.x, v.x), fx_mul_s(v.y, v.y))
}

/// Normalization of a 2D vector; the zero vector is left unchanged.
pub open spec fn v2_normalize_s(v: Vector2) -> Vector2 {
    let m = fx_sqrt_s(v2_norm_sq_s(v));
    if m == 0 {
        v
    } else {
        Vector2 { x: fx_div_s(v.x, m), y: fx_div_s(v.y, m) }
    }
}

impl Vector2 {
    /// Builds a vector from its components.
    pub fn new(x: i64, y: i64) -> (r: Self)
        ensures
            r == (Vector2 { x, y }),
    {
        Vector2 { x, y }
    }

    /// The first component.
    pub fn x(&self) -> (r: i64)
        ensures
            r == self.x,
    {
        self.x
    }

    /// The second component.
    pub fn y(&self) -> (r: i64)
        ensures
            r == self.y,
    {
        self.y
    }

    /// Componentwise negation.
    pub fn neg(&self) -> (r: Self)
        ensures
            r == (Vector2 { x: fx_neg_s(self.x), y: fx_neg_s(self.y) }),
    {
        Vector2 { x: fx_neg(self.x), y: fx_neg(self.y) }
    }

    /// Scales the vector to unit length; the zero vector is left unchanged.
    pub fn normalize(self) -> (r: Self)
        ensures
            r == v2_normalize_s(self),
    {
        let m = fx_sqrt(fx_add(fx_mul(self.x, self.x), fx_mul(self.y, self.y)));
        if m == 0 {
            self
        } else {
            Vector2 { x: fx_div(self.x, m), y: fx_div(self.y, m) }
        }
    }

    /// The vector obtained by rotating the parameter a quarter turn
    /// clockwise; its length is the parameter's.
    pub fn get_perpindicular_cw_vector(v: Self) -> (r: Self)
        ensures
            r == (Vector2 { x: v.y, y: fx_neg_s(v.x) }),
    {
        Vector2 { x: v.y, y: fx_neg(v.x) }
    }

    /// Whether the two vectors agree to within one fixed-point step per
    /// component.
    pub fn are_approximately_equal(v1: &Self, v2: &Self) -> (r: bool)
        ensures
            r == (v1.x - v2.x <= 1 && v2.x - v1.x <= 1 && v1.y - v2.y <= 1 && v2.y - v1.y <= 1),
    {
        let dx = fx_sub_abs(v1.x, v2.x);
        let dy = fx_sub_abs(v1.y, v2.y);
        dx <= 1 && dy <= 1
    }
}

/// Absolute difference of two scalars, saturating at `i64::MAX`.
fn fx_sub_abs(a: i64, b: i64) -> (r: i64)
    ensures
        r as int == crate::fixed::sat64(crate::fixed::abs_i(a - b)),
{
    let d: i128 = a as i128 - b as i128;
    let m: i128 = if d >= 0 {
        d
    } else {
        -d
    };
    if m > i64::MAX as i128 {
        i64::MAX
    } else {
        m as i64
    }
}

/// A 3D vector of fixed-point scalars.
#[derive(Clone, Copy, Debug, PartialEq, Eq, Structural)]
pub struct Vector3 {
    pub x: i64,
    pub y: i64,
    pub z: i64,
}

/// Componentwise sum of two 3D vectors.
pub open spec fn v3_add_s(a: Vector3, b: Vector3) -> Vector3 {
    Vector3 { x: fx_add_s(a.x, b.x), y: fx_add_s(a.y, b.y), z: fx_add_s(a.z, b.z) }
}

/// Componentwise negation of a 3D vector.
pub open spec fn v3_neg_s(a: Vector3) -> Vector3 {
    Vector3 { x: fx_neg_s(a.x), y: fx_neg_s(a.y), z: fx_neg_s(a.z) }
}

/// Dot product of two 3D vectors.
pub open spec fn v3_dot_s(a: Vector3, b: Vector3) -> i64 {
    fx_add_s(fx_add_s(fx_mul_s(a.x, b.x), fx_mul_s(a.y, b.y)), fx_mul_s(a.z, b.z))
}

impl Vector3 {
    /// Builds a vector from its components.
    pub fn new(x: i64, y: i64, z: i64) -> (r: Self)
        ensures
            r == (Vector3 { x, y, z }),
    {
        Vector3 { x, y, z }
    }

    /// The first component.
    pub fn x(&self) -> (r: i64)
        ensures
            r == self.x,
    {
        self.x
    }

    /// The second component.
    pub fn y(&self) -> (r: i64)
        ensures
            r == self.y,
    {
        self.y
    }

    /// The first two components as a 2D vector.
    pub fn xy(&self) -> (r: Vector2)
        ensures
            r == (Vector2 { x: self.x, y: self.y }),
    {
        Vector2 { x: self.x, y: self.y }
    }

    /// Componentwise sum.
    pub fn add(&self, rhs: &Vector3) -> (r: Self)
        ensures
            r == v3_add_s(*self, *rhs),
    {
        Vector3 { x: fx_add(self.x, rhs.x), y: fx_add(self.y, rhs.y), z: fx_add(self.z, rhs.z) }
    }

    /// Componentwise negation.
    pub fn neg(&self) -> (r: Self)
        ensures
            r == v3_neg_s(*self),
    {
        Vector3 { x: fx_neg(self.x), y: fx_neg(self.y), z: fx_neg(self.z) }
    }

    /// The world-space up direction `(0, 1, 0)`.
    pub fn unit_y() -> (r: Self)
        ensures
            r == (Vector3 { x: 0, y: FX_ONE as i64, z: 0 }),
    {
        Vector3 { x: 0, y: FX_ONE, z: 0 }
    }

    /// Dot product.
    pub fn dot(v1: Self, v2: Self) -> (r: i64)
        ensures
            r == v3_dot_s(v1, v2),
    {
        fx_add(fx_add(fx_mul(v1.x, v2.x), fx_mul(v1.y, v2.y)), fx_mul(v1.z, v2.z))
    }
}

/// A 4D vector of fixed-point scalars.
#[derive(Clone, Copy, Debug, PartialEq, Eq, Structural)]
pub struct Vector4 {
    pub x: i64,
    pub y: i64,
    pub z: i64,
    pub w: i64,
}

impl Vector4 {
    /// Drops the fourth component.
    pub fn truncate(self) -> (r: Vector3)
        ensures
            r == (Vector3 { x: self.x, y: self.y, z: self.z }),
    {
        Vector3 { x: self.x, y: self.y, z: self.z }
    }
}

} // verus!
