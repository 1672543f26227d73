//! 3D points over fixed-point scalars.

use crate::fixed::{fx_sub, fx_sub_s};
use crate::vector::Vector3;
use vstd::prelude::*;

verus! {

/// A position in 3D space, as opposed to a displacement.
#[derive(Clone, Copy, Debug, PartialEq, Eq, Structural)]
pub struct Point3 {
    pub x: i64,
    pub y: i64,
    pub z: i64,
}

/// The displacement of a point from the origin.
pub open spec fn p3_to_v3_s(p: Point3) -> Vector3 {
    Vector3 { x: p.x, y: p.y, z: p.z }
}

impl Point3 {
    /// Builds a point from its coordinates.
    pub fn new(x: i64, y: i64, z: i64) -> (r: Self)
        ensures
            r == (Point3 { x, y, z }),
    {
        Point3 { x, y, z }
    }

    /// The origin `(0, 0, 0)`.
    pub fn origin() -> (r: Self)
        ensures
            r == (Point3 { x: 0, y: 0, z: 0 }),
    {
        Point3 { x: 0, y: 0, z: 0 }
    }

    /// The displacement of the point from the origin.
    pub fn to_vec3(&self) -> (r: Vector3)
        ensures
            r == p3_to_v3_s(*self),
    {
        Vector3 { x: self.x, y: self.y, z: self.z }
    }

    /// The displacement from `rhs` to this point.
    pub fn sub(&self, rhs: &Point3) -> (r: Vector3)
        ensures
            r == (Vector3 {
                x: fx_sub_s(self.x, rhs.x),
                y: fx_sub_s(self.y, rhs.y),
                z: fx_sub_s(self.z, rhs.z),
            }),
    {
        Vector3 { x: fx_sub(self.x, rhs.x), y: fx_sub(self.y, rhs.y), z: fx_sub(self.z, rhs.z) }
    }
}

} // verus!
