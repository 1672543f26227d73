//! Drawable meshes and the bank of default meshes.
//!
//! A mesh is a flat vertex list and a 16-bit triangle index list, which
//! puts a hard ceiling of 65536 vertices per mesh — a constraint of the
//! chosen index width.

use crate::point::Point3;
use crate::vertex::{Color3, Vertex};
use vstd::prelude::*;

verus! {

/// A drawable mesh: vertices and 16-bit triangle indices.
pub struct Mesh {
    /// The vertices the indices refer to.
    pub vertices: Vec<Vertex>,
    /// Triangle corners, three consecutive indices per triangle.
    pub indices: Vec<u16>,
}

impl Mesh {
    /// Builds a mesh by copying the given vertex and index data.
    pub fn new_from_slice(vertices: &[Vertex], indices: &[u16]) -> (m: Mesh)
        ensures
            m.vertices@ == vertices@,
            m.indices@ == indices@,
    {
        let mut vs: Vec<Vertex> = Vec::new();
        let mut i: usize = 0;
        while i < vertices.len()
            invariant
                0 <= i <= vertices@.len(),
                vs@ == vertices@.take(i as int),
            decreases vertices@.len() - i,
        {
            vs.push(vertices[i]);
            proof {
                assert(vs@ =~= vertices@.take(i as int + 1));
            }
            i = i + 1;
        }
        let mut is_: Vec<u16> = Vec::new();
        let mut i: usize = 0;
        while i < indices.len()
            invariant
                0 <= i <= indices@.len(),
                is_@ == indices@.take(i as int),
            decreases indices@.len() - i,
        {
            is_.push(indices[i]);
            proof {
                assert(is_@ =~= indices@.take(i as int + 1));
            }
            i = i + 1;
        }
        proof {
            assert(vs@ =~= vertices@);
            assert(is_@ =~= indices@);
        }
        Mesh { vertices: vs, indices: is_ }
    }
}

/// The keys of the default-mesh bank.
#[derive(Clone, Copy, Debug, PartialEq, Eq, Structural, Hash)]
pub enum MeshBankKeys {
    /// The unit-ish cube centered at the origin.
    Cube,
}

/// A cache of default meshes, queried by key.
pub struct MeshBank {
    /// The cube mesh.
    pub cube: Mesh,
}

/// The cube's eight vertices: a half-unit cube centered at the origin,
/// red on top and white on the bottom.
pub open spec fn cube_vertices_s() -> Seq<Vertex> {
    seq![
        Vertex {
            position: Point3 { x: -32768i64, y: 32768i64, z: -32768i64 },
            color: Color3 { r: 58982i64, g: 0i64, b: 0i64 },
        },
        Vertex {
            position: Point3 { x: 32768i64, y: 32768i64, z: -32768i64 },
            color: Color3 { r: 58982i64, g: 0i64, b: 0i64 },
        },
        Vertex {
            position: Point3 { x: -32768i64, y: -32768i64, z: -32768i64 },
            color: Color3 { r: 58982i64, g: 58982i64, b: 58982i64 },
        },
        Vertex {
            position: Point3 { x: 32768i64, y: -32768i64, z: -32768i64 },
            color: Color3 { r: 58982i64, g: 58982i64, b: 58982i64 },
        },
        Vertex {
            position: Point3 { x: 32768i64, y: 32768i64, z: 32768i64 },
            color: Color3 { r: 58982i64, g: 0i64, b: 0i64 },
        },
        Vertex {
            position: Point3 { x: 32768i64, y: -32768i64, z: 32768i64 },
            color: Color3 { r: 58982i64, g: 58982i64, b: 58982i64 },
        },
        Vertex {
            position: Point3 { x: -32768i64, y: 32768i64, z: 32768i64 },
            color: Color3 { r: 58982i64, g: 0i64, b: 0i64 },
        },
        Vertex {
            position: Point3 { x: -32768i64, y: -32768i64, z: 32768i64 },
            color: Color3 { r: 58982i64, g: 58982i64, b: 58982i64 },
        },
    ]
}

/// The cube's triangle indices, two triangles per side.
pub open spec fn cube_indices_s() -> Seq<u16> {
    seq![
        0u16, 1u16, 2u16, 2u16, 1u16, 3u16, 1u16, 4u16, 3u16, 3u16, 4u16, 5u16, 0u16, 7u16, 6u16,
        0u16, 2u16, 7u16, 6u16, 7u16, 4u16, 7u16, 5u16, 4u16, 1u16, 0u16, 6u16, 1u16, 6u16, 4u16,
        2u16, 3u16, 7u16, 3u16, 5u16, 7u16,
    ]
}

impl MeshBank {
    /// Builds the bank holding the default cube mesh.
    pub fn initialize() -> (b: MeshBank)
        ensures
            b.cube.vertices@ == cube_vertices_s(),
            b.cube.indices@ == cube_indices_s(),
    {
        let vertices: Vec<Vertex> = vec![
            Vertex {
                position: Point3 { x: -32768, y: 32768, z: -32768 },
                color: Color3 { r: 58982, g: 0, b: 0 },
            },
            Vertex {
                position: Point3 { x: 32768, y: 32768, z: -32768 },
                color: Color3 { r: 58982, g: 0, b: 0 },
            },
            Vertex {
                position: Point3 { x: -32768, y: -32768, z: -32768 },
                color: Color3 { r: 58982, g: 58982, b: 58982 },
            },
            Vertex {
                position: Point3 { x: 32768, y: -32768, z: -32768 },
                color: Color3 { r: 58982, g: 58982, b: 58982 },
            },
            Vertex {
                position: Point3 { x: 32768, y: 32768, z: 32768 },
                color: Color3 { r: 58982, g: 0, b: 0 },
            },
            Vertex {
                position: Point3 { x: 32768, y: -32768, z: 32768 },
                color: Color3 { r: 58982, g: 58982, b: 58982 },
            },
            Vertex {
                position: Point3 { x: -32768, y: 32768, z: 32768 },
                color: Color3 { r: 58982, g: 0, b: 0 },
            },
            Vertex {
                position: Point3 { x: -32768, y: -32768, z: 32768 },
                color: Color3 { r: 58982, g: 58982, b: 58982 },
            },
        ];
        let indices: Vec<u16> = vec![
            0, 1, 2, 2, 1, 3, 1, 4, 3, 3, 4, 5, 0, 7, 6, 0, 2, 7, 6, 7, 4, 7, 5, 4, 1, 0, 6, 1, 6,
            4, 2, 3, 7, 3, 5, 7,
        ];
        proof {
            assert(vertices@ =~= cube_vertices_s());
            assert(indices@ =~= cube_indices_s());
        }
        MeshBank { cube: Mesh { vertices, indices } }
    }

    /// The mesh stored for a key.
    pub fn get(&self, key: MeshBankKeys) -> (m: &Mesh)
        ensures
            match key {
                MeshBankKeys::Cube => m == &self.cube,
            },
    {
        match key {
            MeshBankKeys::Cube => &self.cube,
        }
    }
}

} // verus!
