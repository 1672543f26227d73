//! 3x3 and 4x4 matrices over fixed-point scalars.
//!
//! Fields are named `c{column}r{row}`, so `c3r0` is the first entry of the
//! fourth column; this matches the column-major layout renderers expect.
//! Inversion returns a failure value on a singular matrix instead of
//! producing garbage entries.

use crate::fixed::{
    fx_add, fx_add_s, fx_div, fx_div_s, fx_divi, fx_divi_s, fx_mul, fx_mul_s, fx_neg, fx_neg_s,
    fx_sub, fx_sub_s, FX_ONE,
};
use crate::quaternion::Quaternion;
use crate::trig::{deg_to_rad_s, fx_cos, fx_cos_s, fx_sin, fx_sin_s, Degrees};
use crate::vector::{Vector3, Vector4};
use vstd::prelude::*;

verus! {

/// A 3x3 matrix of fixed-point scalars, column major.
#[derive(Clone, Copy, Debug, PartialEq, Eq, Structural)]
pub struct Matrix3 {
    pub c0r0: i64,
    pub c0r1: i64,
    pub c0r2: i64,
    pub c1r0: i64,
    pub c1r1: i64,
    pub c1r2: i64,
    pub c2r0: i64,
    pub c2r1: i64,
    pub c2r2: i64,
}

/// A 4x4 matrix of fixed-point scalars, column major.
#[derive(Clone, Copy, Debug, PartialEq, Eq, Structural)]
pub struct Matrix4 {
    pub c0r0: i64,
    pub c0r1: i64,
    pub c0r2: i64,
    pub c0r3: i64,
    pub c1r0: i64,
    pub c1r1: i64,
    pub c1r2: i64,
    pub c1r3: i64,
    pub c2r0: i64,
    pub c2r1: i64,
    pub c2r2: i64,
    pub c2r3: i64,
    pub c3r0: i64,
    pub c3r1: i64,
    pub c3r2: i64,
    pub c3r3: i64,
}

/// Determinant of a 2x2 block: `p*q - r*s`.
pub open spec fn det2_s(p: i64, q: i64, r: i64, s: i64) -> i64 {
    fx_sub_s(fx_mul_s(p, q), fx_mul_s(r, s))
}

fn det2(p: i64, q: i64, r: i64, s: i64) -> (res: i64)
    ensures
        res == det2_s(p, q, r, s),
{
    fx_sub(fx_mul(p, q), fx_mul(r, s))
}

/// Determinant of a 3x3 matrix given row major:
/// `a*(e*i - f*h) - b*(d*i - f*g) + c*(d*h - e*g)`.
pub open spec fn det3_s(
    a: i64,
    b: i64,
    c: i64,
    d: i64,
    e: i64,
    f: i64,
    g: i64,
    h: i64,
    i: i64,
) -> i64 {
    fx_add_s(
        fx_sub_s(fx_mul_s(a, det2_s(e, i, f, h)), fx_mul_s(b, det2_s(d, i, f, g))),
        fx_mul_s(c, det2_s(d, h, e, g)),
    )
}

fn det3(a: i64, b: i64, c: i64, d: i64, e: i64, f: i64, g: i64, h: i64, i: i64) -> (res: i64)
    ensures
        res == det3_s(a, b, c, d, e, f, g, h, i),
{
    fx_add(
        fx_sub(fx_mul(a, det2(e, i, f, h)), fx_mul(b, det2(d, i, f, g))),
        fx_mul(c, det2(d, h, e, g)),
    )
}

/// Determinant of a 3x3 matrix.
pub open spec fn mat3_det_s(m: Matrix3) -> i64 {
    det3_s(m.c0r0, m.c1r0, m.c2r0, m.c0r1, m.c1r1, m.c2r1, m.c0r2, m.c1r2, m.c2r2)
}

/// The 3x3 rotation matrix of a quaternion, by the standard formula.
pub open spec fn mat3_from_quat_s(q: Quaternion) -> Matrix3 {
    let x2 = fx_add_s(q.x, q.x);
    let y2 = fx_add_s(q.y, q.y);
    let z2 = fx_add_s(q.z, q.z);
    let xx2 = fx_mul_s(x2, q.x);
    let xy2 = fx_mul_s(x2, q.y);
    let xz2 = fx_mul_s(x2, q.z);
    let yy2 = fx_mul_s(y2, q.y);
    let yz2 = fx_mul_s(y2, q.z);
    let zz2 = fx_mul_s(z2, q.z);
    let sx2 = fx_mul_s(x2, q.w);
    let sy2 = fx_mul_s(y2, q.w);
    let sz2 = fx_mul_s(z2, q.w);
    Matrix3 {
        c0r0: fx_sub_s(fx_sub_s(FX_ONE, yy2), zz2),
        c0r1: fx_add_s(xy2, sz2),
        c0r2: fx_sub_s(xz2, sy2),
        c1r0: fx_sub_s(xy2, sz2),
        c1r1: fx_sub_s(fx_sub_s(FX_ONE, xx2), zz2),
        c1r2: fx_add_s(yz2, sx2),
        c2r0: fx_add_s(xz2, sy2),
        c2r1: fx_sub_s(yz2, sx2),
        c2r2: fx_sub_s(fx_sub_s(FX_ONE, xx2), yy2),
    }
}

/// The inverse of a 3x3 matrix with nonzero determinant: the adjugate
/// divided by the determinant.
pub open spec fn mat3_invert_s(m: Matrix3) -> Matrix3 {
    let det = mat3_det_s(m);
    let a = m.c0r0;
    let b = m.c1r0;
    let c = m.c2r0;
    let d = m.c0r1;
    let e = m.c1r1;
    let f = m.c2r1;
    let g = m.c0r2;
    let h = m.c1r2;
    let i = m.c2r2;
    Matrix3 {
        c0r0: fx_div_s(det2_s(e, i, f, h), det),
        c1r0: fx_div_s(det2_s(c, h, b, i), det),
        c2r0: fx_div_s(det2_s(b, f, c, e), det),
        c0r1: fx_div_s(det2_s(f, g, d, i), det),
        c1r1: fx_div_s(det2_s(a, i, c, g), det),
        c2r1: fx_div_s(det2_s(c, d, a, f), det),
        c0r2: fx_div_s(det2_s(d, h, e, g), det),
        c1r2: fx_div_s(det2_s(b, g, a, h), det),
        c2r2: fx_div_s(det2_s(a, e, b, d), det),
    }
}

impl Matrix3 {
    /// The rotation matrix of a quaternion.
    pub fn from_quaternion(q: Quaternion) -> (r: Self)
        ensures
            r == mat3_from_quat_s(q),
    {
        let x2 = fx_add(q.x, q.x);
        let y2 = fx_add(q.y, q.y);
        let z2 = fx_add(q.z, q.z);
        let xx2 = fx_mul(x2, q.x);
        let xy2 = fx_mul(x2, q.y);
        let xz2 = fx_mul(x2, q.z);
        let yy2 = fx_mul(y2, q.y);
        let yz2 = fx_mul(y2, q.z);
        let zz2 = fx_mul(z2, q.z);
        let sx2 = fx_mul(x2, q.w);
        let sy2 = fx_mul(y2, q.w);
        let sz2 = fx_mul(z2, q.w);
        Matrix3 {
            c0r0: fx_sub(fx_sub(FX_ONE, yy2), zz2),
            c0r1: fx_add(xy2, sz2),
            c0r2: fx_sub(xz2, sy2),
            c1r0: fx_sub(xy2, sz2),
            c1r1: fx_sub(fx_sub(FX_ONE, xx2), zz2),
            c1r2: fx_add(yz2, sx2),
            c2r0: fx_add(xz2, sy2),
            c2r1: fx_sub(yz2, sx2),
            c2r2: fx_sub(fx_sub(FX_ONE, xx2), yy2),
        }
    }

    /// The inverse matrix, or a failure value when the determinant is
    /// zero.
    pub fn invert(&self) -> (r: Result<Self, ()>)
        ensures
            mat3_det_s(*self) == 0 ==> r == Result::<Matrix3, ()>::Err(()),
            mat3_det_s(*self) != 0 ==> r == Result::<Matrix3, ()>::Ok(mat3_invert_s(*self)),
    {
        let a = self.c0r0;
        let b = self.c1r0;
        let c = self.c2r0;
        let d = self.c0r1;
        let e = self.c1r1;
        let f = self.c2r1;
        let g = self.c0r2;
        let h = self.c1r2;
        let i = self.c2r2;
        let det = det3(a, b, c, d, e, f, g, h, i);
        if det == 0 {
            return Err(());
        }
        Ok(
            Matrix3 {
                c0r0: fx_div(det2(e, i, f, h), det),
                c1r0: fx_div(det2(c, h, b, i), det),
                c2r0: fx_div(det2(b, f, c, e), det),
                c0r1: fx_div(det2(f, g, d, i), det),
                c1r1: fx_div(det2(a, i, c, g), det),
                c2r1: fx_div(det2(c, d, a, f), det),
                c0r2: fx_div(det2(d, h, e, g), det),
                c1r2: fx_div(det2(b, g, a, h), det),
                c2r2: fx_div(det2(a, e, b, d), det),
            },
        )
    }

    /// The first column.
    pub fn x(&self) -> (r: Vector3)
        ensures
            r == (Vector3 { x: self.c0r0, y: self.c0r1, z: self.c0r2 }),
    {
        Vector3 { x: self.c0r0, y: self.c0r1, z: self.c0r2 }
    }
}

/// Dot product of a matrix row with a matrix column.
pub open spec fn dot4_s(
    a0: i64,
    a1: i64,
    a2: i64,
    a3: i64,
    b0: i64,
    b1: i64,
    b2: i64,
    b3: i64,
) -> i64 {
    fx_add_s(
        fx_add_s(fx_add_s(fx_mul_s(a0, b0), fx_mul_s(a1, b1)), fx_mul_s(a2, b2)),
        fx_mul_s(a3, b3),
    )
}

fn dot4(a0: i64, a1: i64, a2: i64, a3: i64, b0: i64, b1: i64, b2: i64, b3: i64) -> (r: i64)
    ensures
        r == dot4_s(a0, a1, a2, a3, b0, b1, b2, b3),
{
    fx_add(fx_add(fx_add(fx_mul(a0, b0), fx_mul(a1, b1)), fx_mul(a2, b2)), fx_mul(a3, b3))
}

/// Product of two 4x4 matrices.
pub open spec fn mat4_mul_s(a: Matrix4, b: Matrix4) -> Matrix4 {
    Matrix4 {
        c0r0: dot4_s(a.c0r0, a.c1r0, a.c2r0, a.c3r0, b.c0r0, b.c0r1, b.c0r2, b.c0r3),
        c0r1: dot4_s(a.c0r1, a.c1r1, a.c2r1, a.c3r1, b.c0r0, b.c0r1, b.c0r2, b.c0r3),
        c0r2: dot4_s(a.c0r2, a.c1r2, a.c2r2, a.c3r2, b.c0r0, b.c0r1, b.c0r2, b.c0r3),
        c0r3: dot4_s(a.c0r3, a.c1r3, a.c2r3, a.c3r3, b.c0r0, b.c0r1, b.c0r2, b.c0r3),
        c1r0: dot4_s(a.c0r0, a.c1r0, a.c2r0, a.c3r0, b.c1r0, b.c1r1, b.c1r2, b.c1r3),
        c1r1: dot4_s(a.c0r1, a.c1r1, a.c2r1, a.c3r1, b.c1r0, b.c1r1, b.c1r2, b.c1r3),
        c1r2: dot4_s(a.c0r2, a.c1r2, a.c2r2, a.c3r2, b.c1r0, b.c1r1, b.c1r2, b.c1r3),
        c1r3: dot4_s(a.c0r3, a.c1r3, a.c2r3, a.c3r3, b.c1r0, b.c1r1, b.c1r2, b.c1r3),
        c2r0: dot4_s(a.c0r0, a.c1r0, a.c2r0, a.c3r0, b.c2r0, b.c2r1, b.c2r2, b.c2r3),
        c2r1: dot4_s(a.c0r1, a.c1r1, a.c2r1, a.c3r1, b.c2r0, b.c2r1, b.c2r2, b.c2r3),
        c2r2: dot4_s(a.c0r2, a.c1r2, a.c2r2, a.c3r2, b.c2r0, b.c2r1, b.c2r2, b.c2r3),
        c2r3: dot4_s(a.c0r3, a.c1r3, a.c2r3, a.c3r3, b.c2r0, b.c2r1, b.c2r2, b.c2r3),
        c3r0: dot4_s(a.c0r0, a.c1r0, a.c2r0, a.c3r0, b.c3r0, b.c3r1, b.c3r2, b.c3r3),
        c3r1: dot4_s(a.c0r1, a.c1r1, a.c2r1, a.c3r1, b.c3r0, b.c3r1, b.c3r2, b.c3r3),
        c3r2: dot4_s(a.c0r2, a.c1r2, a.c2r2, a.c3r2, b.c3r0, b.c3r1, b.c3r2, b.c3r3),
        c3r3: dot4_s(a.c0r3, a.c1r3, a.c2r3, a.c3r3, b.c3r0, b.c3r1, b.c3r2, b.c3r3),
    }
}

/// The 4x4 translation matrix moving the origin by `t`.
pub open spec fn mat4_from_translation_s(t: Vector3) -> Matrix4 {
    Matrix4 {
        c0r0: FX_ONE as i64,
        c0r1: 0,
        c0r2: 0,
        c0r3: 0,
        c1r0: 0,
        c1r1: FX_ONE as i64,
        c1r2: 0,
        c1r3: 0,
        c2r0: 0,
        c2r1: 0,
        c2r2: FX_ONE as i64,
        c2r3: 0,
        c3r0: t.x,
        c3r1: t.y,
        c3r2: t.z,
        c3r3: FX_ONE as i64,
    }
}

/// The 4x4 rotation matrix of a quaternion: its 3x3 rotation block with an
/// identity fourth row and column.
pub open spec fn mat4_from_quat_s(q: Quaternion) -> Matrix4 {
    let m = mat3_from_quat_s(q);
    Matrix4 {
        c0r0: m.c0r0,
        c0r1: m.c0r1,
        c0r2: m.c0r2,
        c0r3: 0,
        c1r0: m.c1r0,
        c1r1: m.c1r1,
        c1r2: m.c1r2,
        c1r3: 0,
        c2r0: m.c2r0,
        c2r1: m.c2r1,
        c2r2: m.c2r2,
        c2r3: 0,
        c3r0: 0,
        c3r1: 0,
        c3r2: 0,
        c3r3: FX_ONE as i64,
    }
}

/// The perspective projection matrix for a vertical field of view given in
/// degrees, an aspect ratio, and near and far clip distances, mapping onto
/// a `[-1, 1]` depth range:
/// with `f = cos(fov/2) / sin(fov/2)`, the nonzero entries are
/// `f/aspect`, `f`, `(far+near)/(near-far)`, `-1`, and
/// `(2*far*near)/(near-far)`.
pub open spec fn mat4_perspective_s(fovy_deg: i64, aspect: i64, near: i64, far: i64) -> Matrix4 {
    let half = fx_divi_s(deg_to_rad_s(fovy_deg), 2);
    let f = fx_div_s(fx_cos_s(half), fx_sin_s(half));
    Matrix4 {
        c0r0: fx_div_s(f, aspect),
        c0r1: 0,
        c0r2: 0,
        c0r3: 0,
        c1r0: 0,
        c1r1: f,
        c1r2: 0,
        c1r3: 0,
        c2r0: 0,
        c2r1: 0,
        c2r2: fx_div_s(fx_add_s(far, near), fx_sub_s(near, far)),
        c2r3: fx_neg_s(FX_ONE as i64),
        c3r0: 0,
        c3r1: 0,
        c3r2: fx_div_s(fx_mul_s(fx_add_s(far, far), near), fx_sub_s(near, far)),
        c3r3: 0,
    }
}

/// The minor of a 4x4 matrix: the determinant of the 3x3 matrix left
/// after removing row `r` and column `c`; `r` and `c` select one of the
/// sixteen entries.
pub open spec fn mat4_minor_s(m: Matrix4, r: int, c: int) -> i64 {
    if r == 0 {
        if c == 0 {
            det3_s(m.c1r1, m.c2r1, m.c3r1, m.c1r2, m.c2r2, m.c3r2, m.c1r3, m.c2r3, m.c3r3)
        } else if c == 1 {
            det3_s(m.c0r1, m.c2r1, m.c3r1, m.c0r2, m.c2r2, m.c3r2, m.c0r3, m.c2r3, m.c3r3)
        } else if c == 2 {
            det3_s(m.c0r1, m.c1r1, m.c3r1, m.c0r2, m.c1r2, m.c3r2, m.c0r3, m.c1r3, m.c3r3)
        } else {
            det3_s(m.c0r1, m.c1r1, m.c2r1, m.c0r2, m.c1r2, m.c2r2, m.c0r3, m.c1r3, m.c2r3)
        }
    } else if r == 1 {
        if c == 0 {
            det3_s(m.c1r0, m.c2r0, m.c3r0, m.c1r2, m.c2r2, m.c3r2, m.c1r3, m.c2r3, m.c3r3)
        } else if c == 1 {
            det3_s(m.c0r0, m.c2r0, m.c3r0, m.c0r2, m.c2r2, m.c3r2, m.c0r3, m.c2r3, m.c3r3)
        } else if c == 2 {
            det3_s(m.c0r0, m.c1r0, m.c3r0, m.c0r2, m.c1r2, m.c3r2, m.c0r3, m.c1r3, m.c3r3)
        } else {
            det3_s(m.c0r0, m.c1r0, m.c2r0, m.c0r2, m.c1r2, m.c2r2, m.c0r3, m.c1r3, m.c2r3)
        }
    } else if r == 2 {
        if c == 0 {
            det3_s(m.c1r0, m.c2r0, m.c3r0, m.c1r1, m.c2r1, m.c3r1, m.c1r3, m.c2r3, m.c3r3)
        } else if c == 1 {
            det3_s(m.c0r0, m.c2r0, m.c3r0, m.c0r1, m.c2r1, m.c3r1, m.c0r3, m.c2r3, m.c3r3)
        } else if c == 2 {
            det3_s(m.c0r0, m.c1r0, m.c3r0, m.c0r1, m.c1r1, m.c3r1, m.c0r3, m.c1r3, m.c3r3)
        } else {
            det3_s(m.c0r0, m.c1r0, m.c2r0, m.c0r1, m.c1r1, m.c2r1, m.c0r3, m.c1r3, m.c2r3)
        }
    } else {
        if c == 0 {
            det3_s(m.c1r0, m.c2r0, m.c3r0, m.c1r1, m.c2r1, m.c3r1, m.c1r2, m.c2r2, m.c3r2)
        } else if c == 1 {
            det3_s(m.c0r0, m.c2r0, m.c3r0, m.c0r1, m.c2r1, m.c3r1, m.c0r2, m.c2r2, m.c3r2)
        } else if c == 2 {
            det3_s(m.c0r0, m.c1r0, m.c3r0, m.c0r1, m.c1r1, m.c3r1, m.c0r2, m.c1r2, m.c3r2)
        } else {
            det3_s(m.c0r0, m.c1r0, m.c2r0, m.c0r1, m.c1r1, m.c2r1, m.c0r2, m.c1r2, m.c2r2)
        }
    }
}

/// Determinant of a 4x4 matrix, by cofactor expansion along the first row.
pub open spec fn mat4_det_s(m: Matrix4) -> i64 {
    fx_sub_s(
        fx_add_s(
            fx_sub_s(
                fx_mul_s(m.c0r0, mat4_minor_s(m, 0, 0)),
                fx_mul_s(m.c1r0, mat4_minor_s(m, 0, 1)),
            ),
            fx_mul_s(m.c2r0, mat4_minor_s(m, 0, 2)),
        ),
        fx_mul_s(m.c3r0, mat4_minor_s(m, 0, 3)),
    )
}

/// The inverse of a 4x4 matrix with nonzero determinant: the adjugate
/// divided by the determinant, entry at column `x` and row `y` being the
/// cofactor `(-1)^(x+y) * minor(x, y)` over the determinant.
pub open spec fn mat4_invert_s(m: Matrix4) -> Matrix4 {
    let det = mat4_det_s(m);
    Matrix4 {
        c0r0: fx_div_s(mat4_minor_s(m, 0, 0), det),
        c0r1: fx_div_s(fx_neg_s(mat4_minor_s(m, 0, 1)), det),
        c0r2: fx_div_s(mat4_minor_s(m, 0, 2), det),
        c0r3: fx_div_s(fx_neg_s(mat4_minor_s(m, 0, 3)), det),
        c1r0: fx_div_s(fx_neg_s(mat4_minor_s(m, 1, 0)), det),
        c1r1: fx_div_s(mat4_minor_s(m, 1, 1), det),
        c1r2: fx_div_s(fx_neg_s(mat4_minor_s(m, 1, 2)), det),
        c1r3: fx_div_s(mat4_minor_s(m, 1, 3), det),
        c2r0: fx_div_s(mat4_minor_s(m, 2, 0), det),
        c2r1: fx_div_s(fx_neg_s(mat4_minor_s(m, 2, 1)), det),
        c2r2: fx_div_s(mat4_minor_s(m, 2, 2), det),
        c2r3: fx_div_s(fx_neg_s(mat4_minor_s(m, 2, 3)), det),
        c3r0: fx_div_s(fx_neg_s(mat4_minor_s(m, 3, 0)), det),
        c3r1: fx_div_s(mat4_minor_s(m, 3, 1), det),
        c3r2: fx_div_s(fx_neg_s(mat4_minor_s(m, 3, 2)), det),
        c3r3: fx_div_s(mat4_minor_s(m, 3, 3), det),
    }
}

impl Matrix4 {
    /// Builds a matrix from its sixteen entries, given column by column.
    pub fn new(
        c0r0: i64,
        c0r1: i64,
        c0r2: i64,
        c0r3: i64,
        c1r0: i64,
        c1r1: i64,
        c1r2: i64,
        c1r3: i64,
        c2r0: i64,
        c2r1: i64,
        c2r2: i64,
        c2r3: i64,
        c3r0: i64,
        c3r1: i64,
        c3r2: i64,
        c3r3: i64,
    ) -> (r: Self)
        ensures
            r == (Matrix4 {
                c0r0,
                c0r1,
                c0r2,
                c0r3,
                c1r0,
                c1r1,
                c1r2,
                c1r3,
                c2r0,
                c2r1,
                c2r2,
                c2r3,
                c3r0,
                c3r1,
                c3r2,
                c3r3,
            }),
    {
        Matrix4 {
            c0r0,
            c0r1,
            c0r2,
            c0r3,
            c1r0,
            c1r1,
            c1r2,
            c1r3,
            c2r0,
            c2r1,
            c2r2,
            c2r3,
            c3r0,
            c3r1,
            c3r2,
            c3r3,
        }
    }

    /// The translation matrix moving the origin by `t`.
    pub fn from_translation(t: Vector3) -> (r: Self)
        ensures
            r == mat4_from_translation_s(t),
    {
        Matrix4 {
            c0r0: FX_ONE,
            c0r1: 0,
            c0r2: 0,
            c0r3: 0,
            c1r0: 0,
            c1r1: FX_ONE,
            c1r2: 0,
            c1r3: 0,
            c2r0: 0,
            c2r1: 0,
            c2r2: FX_ONE,
            c2r3: 0,
            c3r0: t.x,
            c3r1: t.y,
            c3r2: t.z,
            c3r3: FX_ONE,
        }
    }

    /// The rotation matrix of a quaternion.
    pub fn from_quaternion(q: Quaternion) -> (r: Self)
        ensures
            r == mat4_from_quat_s(q),
    {
        let m = Matrix3::from_quaternion(q);
        Matrix4 {
            c0r0: m.c0r0,
            c0r1: m.c0r1,
            c0r2: m.c0r2,
            c0r3: 0,
            c1r0: m.c1r0,
            c1r1: m.c1r1,
            c1r2: m.c1r2,
            c1r3: 0,
            c2r0: m.c2r0,
            c2r1: m.c2r1,
            c2r2: m.c2r2,
            c2r3: 0,
            c3r0: 0,
            c3r1: 0,
            c3r2: 0,
            c3r3: FX_ONE,
        }
    }

    /// The perspective projection matrix for a vertical field of view in
    /// degrees, an aspect ratio, and near and far clip distances.
    pub fn create_perspective(
        vertical_fov: Degrees,
        aspect_ratio: i64,
        near_clipping_z: i64,
        far_clipping_z: i64,
    ) -> (r: Self)
        ensures
            r == mat4_perspective_s(vertical_fov.0, aspect_ratio, near_clipping_z, far_clipping_z),
    {
        let rad = vertical_fov.into_radians();
        let half = fx_divi(rad.0, 2);
        let f = fx_div(fx_cos(half), fx_sin(half));
        Matrix4 {
            c0r0: fx_div(f, aspect_ratio),
            c0r1: 0,
            c0r2: 0,
            c0r3: 0,
            c1r0: 0,
            c1r1: f,
            c1r2: 0,
            c1r3: 0,
            c2r0: 0,
            c2r1: 0,
            c2r2: fx_div(
                fx_add(far_clipping_z, near_clipping_z),
                fx_sub(near_clipping_z, far_clipping_z),
            ),
            c2r3: fx_neg(FX_ONE),
            c3r0: 0,
            c3r1: 0,
            c3r2: fx_div(
                fx_mul(fx_add(far_clipping_z, far_clipping_z), near_clipping_z),
                fx_sub(near_clipping_z, far_clipping_z),
            ),
            c3r3: 0,
        }
    }

    /// The second column.
    pub fn y(&self) -> (r: Vector4)
        ensures
            r == (Vector4 { x: self.c1r0, y: self.c1r1, z: self.c1r2, w: self.c1r3 }),
    {
        Vector4 { x: self.c1r0, y: self.c1r1, z: self.c1r2, w: self.c1r3 }
    }

    /// The inverse matrix, or a failure value when the determinant is
    /// zero.
    pub fn invert(&self) -> (r: Result<Self, ()>)
        ensures
            mat4_det_s(*self) == 0 ==> r == Result::<Matrix4, ()>::Err(()),
            mat4_det_s(*self) != 0 ==> r == Result::<Matrix4, ()>::Ok(mat4_invert_s(*self)),
    {
        let m = *self;
        let m00 = det3(m.c1r1, m.c2r1, m.c3r1, m.c1r2, m.c2r2, m.c3r2, m.c1r3, m.c2r3, m.c3r3);
        let m01 = det3(m.c0r1, m.c2r1, m.c3r1, m.c0r2, m.c2r2, m.c3r2, m.c0r3, m.c2r3, m.c3r3);
        let m02 = det3(m.c0r1, m.c1r1, m.c3r1, m.c0r2, m.c1r2, m.c3r2, m.c0r3, m.c1r3, m.c3r3);
        let m03 = det3(m.c0r1, m.c1r1, m.c2r1, m.c0r2, m.c1r2, m.c2r2, m.c0r3, m.c1r3, m.c2r3);
        let m10 = det3(m.c1r0, m.c2r0, m.c3r0, m.c1r2, m.c2r2, m.c3r2, m.c1r3, m.c2r3, m.c3r3);
        let m11 = det3(m.c0r0, m.c2r0, m.c3r0, m.c0r2, m.c2r2, m.c3r2, m.c0r3, m.c2r3, m.c3r3);
        let m12 = det3(m.c0r0, m.c1r0, m.c3r0, m.c0r2, m.c1r2, m.c3r2, m.c0r3, m.c1r3, m.c3r3);
        let m13 = det3(m.c0r0, m.c1r0, m.c2r0, m.c0r2, m.c1r2, m.c2r2, m.c0r3, m.c1r3, m.c2r3);
        let m20 = det3(m.c1r0, m.c2r0, m.c3r0, m.c1r1, m.c2r1, m.c3r1, m.c1r3, m.c2r3, m.c3r3);
        let m21 = det3(m.c0r0, m.c2r0, m.c3r0, m.c0r1, m.c2r1, m.c3r1, m.c0r3, m.c2r3, m.c3r3);
        let m22 = det3(m.c0r0, m.c1r0, m.c3r0, m.c0r1, m.c1r1, m.c3r1, m.c0r3, m.c1r3, m.c3r3);
        let m23 = det3(m.c0r0, m.c1r0, m.c2r0, m.c0r1, m.c1r1, m.c2r1, m.c0r3, m.c1r3, m.c2r3);
        let m30 = det3(m.c1r0, m.c2r0, m.c3r0, m.c1r1, m.c2r1, m.c3r1, m.c1r2, m.c2r2, m.c3r2);
        let m31 = det3(m.c0r0, m.c2r0, m.c3r0, m.c0r1, m.c2r1, m.c3r1, m.c0r2, m.c2r2, m.c3r2);
        let m32 = det3(m.c0r0, m.c1r0, m.c3r0, m.c0r1, m.c1r1, m.c3r1, m.c0r2, m.c1r2, m.c3r2);
        let m33 = det3(m.c0r0, m.c1r0, m.c2r0, m.c0r1, m.c1r1, m.c2r1, m.c0r2, m.c1r2, m.c2r2);
        let det = fx_sub(
            fx_add(fx_sub(fx_mul(m.c0r0, m00), fx_mul(m.c1r0, m01)), fx_mul(m.c2r0, m02)),
            fx_mul(m.c3r0, m03),
        );
        if det == 0 {
            return Err(());
        }
        Ok(
            Matrix4 {
                c0r0: fx_div(m00, det),
                c0r1: fx_div(fx_neg(m01), det),
                c0r2: fx_div(m02, det),
                c0r3: fx_div(fx_neg(m03), det),
                c1r0: fx_div(fx_neg(m10), det),
                c1r1: fx_div(m11, det),
                c1r2: fx_div(fx_neg(m12), det),
                c1r3: fx_div(m13, det),
                c2r0: fx_div(m20, det),
                c2r1: fx_div(fx_neg(m21), det),
                c2r2: fx_div(m22, det),
                c2r3: fx_div(fx_neg(m23), det),
                c3r0: fx_div(fx_neg(m30), det),
                c3r1: fx_div(m31, det),
                c3r2: fx_div(fx_neg(m32), det),
                c3r3: fx_div(m33, det),
            },
        )
    }

    /// Matrix product; applies `rhs` first, then `self`.
    pub fn mul(self, rhs: Matrix4) -> (r: Self)
        ensures
            r == mat4_mul_s(self, rhs),
    {
        let a = self;
        let b = rhs;
        Matrix4 {
            c0r0: dot4(a.c0r0, a.c1r0, a.c2r0, a.c3r0, b.c0r0, b.c0r1, b.c0r2, b.c0r3),
            c0r1: dot4(a.c0r1, a.c1r1, a.c2r1, a.c3r1, b.c0r0, b.c0r1, b.c0r2, b.c0r3),
            c0r2: dot4(a.c0r2, a.c1r2, a.c2r2, a.c3r2, b.c0r0, b.c0r1, b.c0r2, b.c0r3),
            c0r3: dot4(a.c0r3, a.c1r3, a.c2r3, a.c3r3, b.c0r0, b.c0r1, b.c0r2, b.c0r3),
            c1r0: dot4(a.c0r0, a.c1r0, a.c2r0, a.c3r0, b.c1r0, b.c1r1, b.c1r2, b.c1r3),
            c1r1: dot4(a.c0r1, a.c1r1, a.c2r1, a.c3r1, b.c1r0, b.c1r1, b.c1r2, b.c1r3),
            c1r2: dot4(a.c0r2, a.c1r2, a.c2r2, a.c3r2, b.c1r0, b.c1r1, b.c1r2, b.c1r3),
            c1r3: dot4(a.c0r3, a.c1r3, a.c2r3, a.c3r3, b.c1r0, b.c1r1, b.c1r2, b.c1r3),
            c2r0: dot4(a.c0r0, a.c1r0, a.c2r0, a.c3r0, b.c2r0, b.c2r1, b.c2r2, b.c2r3),
            c2r1: dot4(a.c0r1, a.c1r1, a.c2r1, a.c3r1, b.c2r0, b.c2r1, b.c2r2, b.c2r3),
            c2r2: dot4(a.c0r2, a.c1r2, a.c2r2, a.c3r2, b.c2r0, b.c2r1, b.c2r2, b.c2r3),
            c2r3: dot4(a.c0r3, a.c1r3, a.c2r3, a.c3r3, b.c2r0, b.c2r1, b.c2r2, b.c2r3),
            c3r0: dot4(a.c0r0, a.c1r0, a.c2r0, a.c3r0, b.c3r0, b.c3r1, b.c3r2, b.c3r3),
            c3r1: dot4(a.c0r1, a.c1r1, a.c2r1, a.c3r1, b.c3r0, b.c3r1, b.c3r2, b.c3r3),
            c3r2: dot4(a.c0r2, a.c1r2, a.c2r2, a.c3r2, b.c3r0, b.c3r1, b.c3r2, b.c3r3),
            c3r3: dot4(a.c0r3, a.c1r3, a.c2r3, a.c3r3, b.c3r0, b.c3r1, b.c3r2, b.c3r3),
        }
    }
}

} // verus!
