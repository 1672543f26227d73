//! Mesh topology: face construction, the edge lookup table, aggregation
//! dedup, and the boundary cycle.

use ekki::bmesh::BMesh;
use ekki::bmesh_cycle::BMeshCycle;
use ekki::bmesh_edge::{BMeshEdge, BMeshEdgeLookupTable, BMeshEdgeLoop};
use ekki::bmesh_face::{BMeshError, BMeshFace, TesselationStrategy};
use ekki::bmesh_vertex::BMeshVertex;
use ekki::point::Point3;

fn vert(id: u32, x: i64) -> BMeshVertex {
    BMeshVertex { id, position: Point3::new(x, 0, 0) }
}

#[test]
fn two_triangles_sharing_an_edge_dedup_to_four_vertices() {
    let a = vert(11, 0);
    let b = vert(22, 1);
    let c = vert(33, 2);
    let d = vert(44, 3);
    let f1 = BMeshFace::create(
        BMeshEdgeLoop::new(vec![a, b, c]),
        TesselationStrategy::Triangle,
    )
    .expect("three vertices tesselate");
    let f2 = BMeshFace::create(
        BMeshEdgeLoop::new(vec![c, b, d]),
        TesselationStrategy::Triangle,
    )
    .expect("three vertices tesselate");
    let tess = BMeshFace::aggregate_tesselations(&vec![f1, f2]);
    assert_eq!(tess.vertices.len(), 4);
    assert_eq!(tess.indices.len(), 6);
    let ids: Vec<u32> = tess.vertices.iter().map(|v| v.id).collect();
    assert_eq!(ids, vec![11, 22, 33, 44]);
    // The shared vertices (ids 22 and 33) keep their first slots in the
    // second triangle's indices.
    assert_eq!(tess.indices, vec![0, 1, 2, 2, 1, 3]);
}

#[test]
fn aggregating_no_faces_gives_an_empty_tesselation() {
    let tess = BMeshFace::aggregate_tesselations(&Vec::new());
    assert!(tess.vertices.is_empty());
    assert!(tess.indices.is_empty());
}

#[test]
fn five_vertex_loop_is_rejected() {
    let vs = vec![vert(1, 0), vert(2, 1), vert(3, 2), vert(4, 3), vert(5, 4)];
    let r = BMeshFace::create(BMeshEdgeLoop::new(vs), TesselationStrategy::Quad);
    match r {
        Err(e) => assert_eq!(e, BMeshError::UnsupportedArity(5)),
        Ok(_) => panic!("a five-vertex loop must be rejected"),
    }
}

#[test]
fn from_ngon_rejects_unsupported_arities() {
    let points: Vec<Point3> = (0..5).map(|i| Point3::new(i * 65536, 0, 0)).collect();
    match BMesh::from_ngon(points) {
        Err(BMeshError::UnsupportedArity(5)) => {},
        _ => panic!("a pentagon must be rejected"),
    }
    assert!(BMesh::from_ngon(Vec::new()).is_err());
}

#[test]
fn from_ngon_triangle_builds_the_ring() {
    let p0 = Point3::new(0, 0, 0);
    let p1 = Point3::new(65536, 0, 0);
    let p2 = Point3::new(0, 65536, 0);
    let m = BMesh::from_ngon(vec![p0, p1, p2]).expect("a triangle is supported");
    assert_eq!(m.vertices.len(), 3);
    assert_eq!(m.vertices[0].position, p0);
    assert_eq!(m.vertices[1].position, p1);
    assert_eq!(m.vertices[2].position, p2);
    assert_eq!(m.edges.len(), 3);
    for i in 0..3 {
        assert_eq!(m.edges[i].v0_id, m.vertices[i].id);
        assert_eq!(m.edges[i].v1_id, m.vertices[(i + 1) % 3].id);
    }
    assert_eq!(m.faces.len(), 1);
    assert_eq!(m.faces[0].tesselation.indices, vec![0, 1, 2]);
    // Every edge is reachable in the lookup table from both endpoint
    // orderings.
    for e in m.edges.iter() {
        assert_eq!(m.edge_lookup_table.get_edge(e.v0_id, e.v1_id), Some(e.id));
        assert_eq!(m.edge_lookup_table.get_edge(e.v1_id, e.v0_id), Some(e.id));
    }
}

#[test]
fn from_ngon_quad_tesselates_into_two_triangles() {
    let points = vec![
        Point3::new(0, 0, 0),
        Point3::new(65536, 0, 0),
        Point3::new(65536, 65536, 0),
        Point3::new(0, 65536, 0),
    ];
    let m = BMesh::from_ngon(points).expect("a quad is supported");
    assert_eq!(m.faces[0].tesselation.indices, vec![0, 1, 2, 2, 3, 0]);
    assert_eq!(m.tesselation.vertices.len(), 4);
    assert_eq!(m.tesselation.indices, vec![0, 1, 2, 2, 3, 0]);
}

#[test]
fn lookup_table_replaces_an_edge_for_the_same_pair() {
    let a = vert(7, 0);
    let b = vert(9, 1);
    let mut table = BMeshEdgeLookupTable::new();
    let first = BMeshEdge::create(&a, &b, &mut table);
    let second = BMeshEdge::create(&a, &b, &mut table);
    assert_eq!(table.get_edge(7, 9), Some(second.id));
    assert_eq!(table.get_edge(9, 7), Some(second.id));
    if first.id != second.id {
        assert_ne!(table.get_edge(7, 9), Some(first.id));
    }
    assert_eq!(table.get_edge(7, 8), None);
}

#[test]
fn vertex_creation_keeps_the_position() {
    let p = Point3::new(1, 2, 3);
    let v = BMeshVertex::create_from_position(p);
    assert_eq!(v.position, p);
    assert_eq!(v.get_id(), v.id);
}

#[test]
fn cycle_wraps_like_a_circular_list() {
    let cycle: BMeshCycle<u32> = BMeshCycle { data: vec![10, 20, 30], current_index: 0 };
    assert_eq!(*cycle.get(), 10);
    assert_eq!(*cycle.next(), 20);
    // next does not advance.
    assert_eq!(*cycle.get(), 10);
    let cycle = cycle.advance();
    assert_eq!(*cycle.get(), 20);
    let cycle = cycle.advance();
    assert_eq!(*cycle.get(), 30);
    assert_eq!(*cycle.next(), 10);
    let cycle = cycle.advance();
    assert_eq!(*cycle.get(), 10);
    assert_eq!(cycle.increment_current_index(), 1);
}

#[test]
fn cycle_from_vector_starts_at_the_front() {
    let cycle: BMeshCycle<u8> = BMeshCycle::from(vec![5, 6]);
    assert_eq!(cycle.current_index, 0);
    assert_eq!(*cycle.get(), 5);
}
