//! Core of a small interactive 3D viewer: an orbiting "turntable" viewport
//! camera built from a decoupled view/projection state machine, a minimal
//! linear-algebra layer (vectors, points, quaternions, 3x3 and 4x4 matrices),
//! and a BMesh-like mesh topology (vertices, edges, faces, shared-edge lookup
//! and tesselation) that yields flat vertex/index streams for a renderer.
//!
//! All scalar arithmetic is exact signed 16.16 fixed point carried in `i64`
//! (see [`fixed`]), so every derived quantity is a mathematical function of
//! the inputs and the matrix caches can be specified exactly.

pub mod bmesh;
pub mod bmesh_cycle;
pub mod bmesh_edge;
pub mod bmesh_face;
pub mod bmesh_vertex;
pub mod camera;
pub mod draw;
pub mod edges;
pub mod fixed;
pub mod matrix;
pub mod meshes;
pub mod point;
pub mod quaternion;
mod rng;
pub mod trig;
pub mod vector;
pub mod vertex;
