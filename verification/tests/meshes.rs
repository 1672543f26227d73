//! The mesh bank, mesh copying, and the flattening of mesh collections
//! into single draw buffers.

use ekki::draw::collect_meshes_into_buffers;
use ekki::edges::{EdgeIndex, EdgeVertex};
use ekki::meshes::{Mesh, MeshBank, MeshBankKeys};
use ekki::point::Point3;
use ekki::vector::Vector2;
use ekki::vertex::{Color3, Vertex};

fn small_vertex(x: i64) -> Vertex {
    Vertex { position: Point3::new(x, 0, 0), color: Color3 { r: 0, g: 0, b: 0 } }
}

#[test]
fn the_bank_serves_the_cube() {
    let bank = MeshBank::initialize();
    let cube = bank.get(MeshBankKeys::Cube);
    assert_eq!(cube.vertices.len(), 8);
    assert_eq!(cube.indices.len(), 36);
    assert_eq!(cube.vertices[0].position, Point3::new(-32768, 32768, -32768));
    assert_eq!(cube.vertices[0].color, Color3 { r: 58982, g: 0, b: 0 });
    assert_eq!(&cube.indices[0..6], &[0, 1, 2, 2, 1, 3]);
    // Every index addresses one of the eight vertices.
    assert!(cube.indices.iter().all(|&i| (i as usize) < cube.vertices.len()));
}

#[test]
fn meshes_copy_from_slices() {
    let vs = [small_vertex(1), small_vertex(2)];
    let is_ = [0u16, 1, 0];
    let m = Mesh::new_from_slice(&vs, &is_);
    assert_eq!(m.vertices, vs.to_vec());
    assert_eq!(m.indices, is_.to_vec());
}

#[test]
fn collecting_meshes_concatenates_their_buffers() {
    let m1 = Mesh { vertices: vec![small_vertex(1)], indices: vec![0, 0, 0] };
    let m2 = Mesh { vertices: vec![small_vertex(2), small_vertex(3)], indices: vec![1, 0] };
    let (vertices, indices) = collect_meshes_into_buffers(&vec![m1, m2]);
    assert_eq!(vertices.len(), 3);
    assert_eq!(vertices[0], small_vertex(1));
    assert_eq!(vertices[2], small_vertex(3));
    assert_eq!(indices, vec![0, 0, 0, 1, 0]);
}

#[test]
fn collecting_no_meshes_gives_empty_buffers() {
    let (vertices, indices) = collect_meshes_into_buffers(&Vec::new());
    assert!(vertices.is_empty());
    assert!(indices.is_empty());
}

#[test]
fn edge_vertices_keep_their_fields() {
    let v = EdgeVertex::new(Point3::new(1, 2, 3), Vector2::new(4, 5));
    assert_eq!(v.position, Point3::new(1, 2, 3));
    assert_eq!(v.normal, Vector2::new(4, 5));
    let i = EdgeIndex { point0_index: 3, point1_index: 9 };
    assert_eq!((i.point0_index, i.point1_index), (3, 9));
}
