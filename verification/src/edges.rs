//! CPU-side preparation of edges for rendering, as in wireframe
//! outlines: an edge vertex carries a position and a screen-space normal
//! along which it is pushed out to give the line width.

use crate::point::Point3;
use crate::vector::Vector2;
use vstd::prelude::*;

verus! {

/// A vertex of an edge mesh: a position and a unit normal perpendicular
/// to the edge in screen space. Two edge vertices describing the same
/// position carry normals of opposite sign.
#[derive(Clone, Copy, Debug, PartialEq, Eq, Structural)]
pub struct EdgeVertex {
    /// The 3D position; the depth coordinate only matters for depth
    /// testing.
    pub position: Point3,
    /// The direction the vertex is pushed out in.
    pub normal: Vector2,
}

impl EdgeVertex {
    /// Builds an edge vertex from its position and normal.
    pub fn new(position: Point3, normal: Vector2) -> (v: Self)
        ensures
            v == (EdgeVertex { position, normal }),
    {
        EdgeVertex { position, normal }
    }
}

/// The pair of indices that together select an edge's two endpoints from
/// a position list; pairing them in one value keeps the index list's
/// grouping explicit.
#[derive(Clone, Copy, Debug, PartialEq, Eq, Structural)]
pub struct EdgeIndex {
    /// Index of the first endpoint.
    pub point0_index: u16,
    /// Index of the second endpoint.
    pub point1_index: u16,
}

/// A collection of edges: positions in arbitrary order and the index
/// pairs that connect them.
pub struct EdgeMesh {
    /// The edge vertices.
    pub vertices: Vec<EdgeVertex>,
    /// Triangle indices into the vertex list.
    pub indices: Vec<u16>,
}

} // verus!
