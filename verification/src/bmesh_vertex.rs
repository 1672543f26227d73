//! Mesh vertices: a position plus a generated identifier.

use crate::point::Point3;
use vstd::prelude::*;

verus! {

/// A mesh vertex: a 3D position and a 32-bit identifier drawn at creation.
/// Identifiers are used as keys in the edge lookup table and during
/// tesselation dedup; they are expected to be unique within a mesh's
/// lifetime, and every contract that needs uniqueness says so explicitly.
#[derive(Clone, Copy, Debug, PartialEq, Eq, Structural)]
pub struct BMeshVertex {
    /// The generated identifier.
    pub id: u32,
    /// The vertex position.
    pub position: Point3,
}

impl BMeshVertex {
    /// Allocates a vertex at `position` with a freshly drawn identifier.
    /// Nothing is known of the identifier's value.
    pub fn create_from_position(position: Point3) -> (v: BMeshVertex)
        ensures
            v.position == position,
    {
        BMeshVertex { id: crate::rng::random_u32(), position }
    }

    /// The vertex identifier.
    pub fn get_id(&self) -> (r: u32)
        ensures
            r == self.id,
    {
        self.id
    }
}

} // verus!
