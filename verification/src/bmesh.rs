//! The mesh: vertex, edge and face collections, the shared-edge lookup
//! table, and the aggregate tesselation, built in a strict pipeline —
//! vertices, then edges, then faces, then the tesselation.

use crate::bmesh_edge::{
    lemma_pair_key_injective, pair_key, BMeshEdge, BMeshEdgeLookupTable, BMeshEdgeLoop,
};
use crate::bmesh_face::{
    dedup_verts, face_wf, indices_of, stream_of, strategy_indices_s, BMeshError, BMeshFace,
    BMeshTesselation, TesselationStrategy,
};
use crate::bmesh_vertex::BMeshVertex;
use crate::point::Point3;
use vstd::arithmetic::div_mod::{lemma_mod_self_0, lemma_small_mod};
use vstd::prelude::*;

verus! {

/// The lookup table contents after registering the given edges in order,
/// each under both orderings of its endpoints; a later edge replaces an
/// earlier one stored for the same vertex pair.
pub open spec fn table_after(edges: Seq<BMeshEdge>) -> Map<u64, u32>
    decreases edges.len(),
{
    if edges.len() == 0 {
        Map::empty()
    } else {
        let e = edges.last();
        table_after(edges.drop_last()).insert(pair_key(e.v0_id, e.v1_id), e.id).insert(
            pair_key(e.v1_id, e.v0_id),
            e.id,
        )
    }
}

/// A mesh built from one face loop: the element collections, the
/// edge lookup table, and the aggregate tesselation.
pub struct BMesh {
    /// The vertices, in loop order.
    pub vertices: Vec<BMeshVertex>,
    /// The boundary edges; edge `i` connects vertices `i` and `i + 1`,
    /// wrapping at the end.
    pub edges: Vec<BMeshEdge>,
    /// The faces; a mesh built from one loop holds one face.
    pub faces: Vec<BMeshFace>,
    /// The shared-edge lookup table over all edges.
    pub edge_lookup_table: BMeshEdgeLookupTable,
    /// The aggregate tesselation over all faces.
    pub tesselation: BMeshTesselation,
}

impl BMesh {
    /// Builds a mesh from the corner points of an n-gon, assumed to go
    /// around it counter-clockwise. Three corners tesselate as one
    /// triangle and four as two triangles sharing the diagonal; any other
    /// count is rejected with an unsupported-arity error.
    pub fn from_ngon(points: Vec<Point3>) -> (r: Result<BMesh, BMeshError>)
        ensures
            match r {
                Ok(m) => {
                    &&& (points@.len() == 3 || points@.len() == 4)
                    &&& m.vertices@.len() == points@.len()
                    &&& forall|i: int|
                        0 <= i < points@.len() ==> m.vertices@[i].position == points@[i]
                    &&& m.edges@.len() == points@.len()
                    &&& forall|i: int|
                        0 <= i < m.edges@.len() ==> m.edges@[i].v0_id == m.vertices@[i].id
                            && m.edges@[i].v1_id == m.vertices@[(i + 1) % (points@.len() as int)].id
                    &&& m.faces@.len() == 1
                    &&& face_wf(m.faces@[0])
                    &&& m.faces@[0].tesselation.vertices@ == m.vertices@
                    &&& m.faces@[0].tesselation.indices@ == strategy_indices_s(
                        if points@.len() == 3 {
                            TesselationStrategy::Triangle
                        } else {
                            TesselationStrategy::Quad
                        },
                    )
                    &&& m.edge_lookup_table.contents() == table_after(m.edges@)
                    &&& m.tesselation.vertices@ == dedup_verts(stream_of(m.faces@))
                    &&& m.tesselation.indices@ == indices_of(m.faces@, m.tesselation.vertices@)
                    &&& forall|i: int|
                        0 <= i < m.tesselation.indices@.len() ==> (
                        m.tesselation.indices@[i] as int) < m.tesselation.vertices@.len()
                },
                Err(e) => {
                    &&& points@.len() != 3 && points@.len() != 4
                    &&& e == BMeshError::UnsupportedArity(points@.len() as usize)
                },
            },
    {
        let n = points.len();
        let tesselation_strategy = match n {
            3 => TesselationStrategy::Triangle,
            4 => TesselationStrategy::Quad,
            _ => {
                return Err(BMeshError::UnsupportedArity(n));
            },
        };

        // Create vertices; keep a second copy of the list for the face
        // loop, since vertices are plain values in this arena design.
        let mut vertices: Vec<BMeshVertex> = Vec::new();
        let mut loop_vertices: Vec<BMeshVertex> = Vec::new();
        let mut i: usize = 0;
        while i < n
            invariant
                0 <= i <= n,
                n == points@.len(),
                vertices@.len() == i,
                loop_vertices@ == vertices@,
                forall|j: int| 0 <= j < i ==> vertices@[j].position == points@[j],
            decreases n - i,
        {
            let v = BMeshVertex::create_from_position(points[i]);
            vertices.push(v);
            loop_vertices.push(v);
            i = i + 1;
        }

        // Create edges, registering each in the lookup table.
        let mut edge_lookup_table = BMeshEdgeLookupTable::new();
        let mut edges: Vec<BMeshEdge> = Vec::new();
        let mut i: usize = 0;
        while i < n
            invariant
                0 <= i <= n,
                n == points@.len(),
                n > 0,
                vertices@.len() == n,
                edges@.len() == i,
                forall|j: int|
                    0 <= j < i ==> edges@[j].v0_id == vertices@[j].id && edges@[j].v1_id
                        == vertices@[(j + 1) % (n as int)].id,
                edge_lookup_table.contents() == table_after(edges@),
            decreases n - i,
        {
            let v0 = i;
            let v1 = (i + 1) % n;
            let edge = BMeshEdge::create(&vertices[v0], &vertices[v1], &mut edge_lookup_table);
            let ghost edges0 = edges@;
            edges.push(edge);
            proof {
                assert(edges@.drop_last() =~= edges0);
            }
            i = i + 1;
        }

        // Create the face.
        let face_edge_loop = BMeshEdgeLoop::new(loop_vertices);
        let face = match BMeshFace::create(face_edge_loop, tesselation_strategy) {
            Ok(f) => f,
            Err(_) => {
                proof {
                    assert(false);
                }
                return Err(BMeshError::UnsupportedArity(n));
            },
        };
        let faces: Vec<BMeshFace> = vec![face];

        // Create the aggregate tesselation.
        let tesselation = BMeshFace::aggregate_tesselations(&faces);

        Ok(BMesh { vertices, edges, faces, edge_lookup_table, tesselation })
    }
}

/// The vertex identifiers are pairwise distinct.
pub open spec fn distinct_vertex_ids(vs: Seq<BMeshVertex>) -> bool {
    forall|i: int, j: int| 0 <= i < j < vs.len() ==> vs[i].id != vs[j].id
}

/// The edges form the boundary ring of the vertex loop: edge `j` connects
/// vertex `j` to vertex `j + 1`, wrapping at the end.
pub open spec fn ring_edges(edges: Seq<BMeshEdge>, vs: Seq<BMeshVertex>) -> bool {
    &&& edges.len() == vs.len()
    &&& forall|j: int|
        0 <= j < edges.len() ==> edges[j].v0_id == vs[j].id && edges[j].v1_id == vs[(j + 1) % (
        vs.len() as int)].id
}

proof fn lemma_id_index(vs: Seq<BMeshVertex>, x: int, y: int)
    requires
        distinct_vertex_ids(vs),
        0 <= x < vs.len(),
        0 <= y < vs.len(),
        vs[x].id == vs[y].id,
    ensures
        x == y,
{
    if x < y {
        assert(vs[x].id != vs[y].id);
    }
    if y < x {
        assert(vs[y].id != vs[x].id);
    }
}

proof fn lemma_succ_mod(n: int, i: int)
    requires
        0 <= i < n,
    ensures
        (i + 1) % n == if i + 1 < n {
            i + 1
        } else {
            0
        },
{
    if i + 1 < n {
        lemma_small_mod((i + 1) as nat, n as nat);
    } else {
        lemma_mod_self_0(n);
    }
}

/// The table keys of two distinct ring edges never collide, in either
/// orientation: around a ring of at least three distinct vertices, no two
/// edges connect the same vertex pair.
proof fn lemma_ring_keys_distinct(edges: Seq<BMeshEdge>, vs: Seq<BMeshVertex>, i: int, k: int)
    requires
        ring_edges(edges, vs),
        distinct_vertex_ids(vs),
        vs.len() >= 3,
        0 <= i < k < edges.len(),
    ensures
        pair_key(edges[k].v0_id, edges[k].v1_id) != pair_key(edges[i].v0_id, edges[i].v1_id),
        pair_key(edges[k].v0_id, edges[k].v1_id) != pair_key(edges[i].v1_id, edges[i].v0_id),
        pair_key(edges[k].v1_id, edges[k].v0_id) != pair_key(edges[i].v0_id, edges[i].v1_id),
        pair_key(edges[k].v1_id, edges[k].v0_id) != pair_key(edges[i].v1_id, edges[i].v0_id),
{
    let n = vs.len() as int;
    lemma_succ_mod(n, i);
    lemma_succ_mod(n, k);
    if pair_key(edges[k].v0_id, edges[k].v1_id) == pair_key(edges[i].v0_id, edges[i].v1_id) {
        lemma_pair_key_injective(edges[k].v0_id, edges[k].v1_id, edges[i].v0_id, edges[i].v1_id);
        lemma_id_index(vs, k, i);
    }
    if pair_key(edges[k].v0_id, edges[k].v1_id) == pair_key(edges[i].v1_id, edges[i].v0_id) {
        lemma_pair_key_injective(edges[k].v0_id, edges[k].v1_id, edges[i].v1_id, edges[i].v0_id);
        lemma_id_index(vs, k, (i + 1) % n);
        lemma_id_index(vs, (k + 1) % n, i);
    }
    if pair_key(edges[k].v1_id, edges[k].v0_id) == pair_key(edges[i].v0_id, edges[i].v1_id) {
        lemma_pair_key_injective(edges[k].v1_id, edges[k].v0_id, edges[i].v0_id, edges[i].v1_id);
        lemma_id_index(vs, (k + 1) % n, i);
        lemma_id_index(vs, k, (i + 1) % n);
    }
    if pair_key(edges[k].v1_id, edges[k].v0_id) == pair_key(edges[i].v1_id, edges[i].v0_id) {
        lemma_pair_key_injective(edges[k].v1_id, edges[k].v0_id, edges[i].v1_id, edges[i].v0_id);
        lemma_id_index(vs, (k + 1) % n, (i + 1) % n);
        lemma_id_index(vs, k, i);
    }
}

#[verifier::rlimit(100)]
proof fn lemma_ring_lookup_prefix(edges: Seq<BMeshEdge>, vs: Seq<BMeshVertex>, k: int)
    requires
        ring_edges(edges, vs),
        distinct_vertex_ids(vs),
        vs.len() >= 3,
        0 <= k <= edges.len(),
    ensures
        forall|i: int|
            0 <= i < k ==> {
                &&& #[trigger] table_after(edges.take(k)).contains_key(
                    pair_key(edges[i].v0_id, edges[i].v1_id),
                )
                &&& table_after(edges.take(k))[pair_key(edges[i].v0_id, edges[i].v1_id)]
                    == edges[i].id
                &&& table_after(edges.take(k)).contains_key(
                    pair_key(edges[i].v1_id, edges[i].v0_id),
                )
                &&& table_after(edges.take(k))[pair_key(edges[i].v1_id, edges[i].v0_id)]
                    == edges[i].id
            },
    decreases k,
{
    if k > 0 {
        lemma_ring_lookup_prefix(edges, vs, k - 1);
        let t0 = table_after(edges.take(k - 1));
        assert(edges.take(k).drop_last() =~= edges.take(k - 1));
        let e = edges[k - 1];
        assert(edges.take(k).last() == e);
        let t = table_after(edges.take(k));
        assert(t == t0.insert(pair_key(e.v0_id, e.v1_id), e.id).insert(
            pair_key(e.v1_id, e.v0_id),
            e.id,
        ));
        assert forall|i: int|
            0 <= i < k implies {
            &&& #[trigger] t.contains_key(pair_key(edges[i].v0_id, edges[i].v1_id))
            &&& t[pair_key(edges[i].v0_id, edges[i].v1_id)] == edges[i].id
            &&& t.contains_key(pair_key(edges[i].v1_id, edges[i].v0_id))
            &&& t[pair_key(edges[i].v1_id, edges[i].v0_id)] == edges[i].id
        } by {
            if i < k - 1 {
                lemma_ring_keys_distinct(edges, vs, i, k - 1);
                assert(t0.contains_key(pair_key(edges[i].v0_id, edges[i].v1_id)));
                assert(t0[pair_key(edges[i].v0_id, edges[i].v1_id)] == edges[i].id);
                assert(t0.contains_key(pair_key(edges[i].v1_id, edges[i].v0_id)));
                assert(t0[pair_key(edges[i].v1_id, edges[i].v0_id)] == edges[i].id);
                assert(t[pair_key(edges[i].v0_id, edges[i].v1_id)] == edges[i].id);
                assert(t[pair_key(edges[i].v1_id, edges[i].v0_id)] == edges[i].id);
            } else {
                assert(edges[i] == e);
                assert(t.contains_key(pair_key(e.v1_id, e.v0_id)));
                assert(t[pair_key(e.v1_id, e.v0_id)] == e.id);
                assert(t[pair_key(e.v0_id, e.v1_id)] == e.id);
            }
        }
    }
}

/// Law: in a mesh whose ring vertices carry pairwise distinct
/// identifiers, every boundary edge is reachable in the lookup table from
/// both orderings of its endpoints.
pub proof fn lemma_ring_lookup(edges: Seq<BMeshEdge>, vs: Seq<BMeshVertex>)
    requires
        ring_edges(edges, vs),
        distinct_vertex_ids(vs),
        vs.len() >= 3,
    ensures
        forall|i: int|
            0 <= i < edges.len() ==> {
                &&& #[trigger] table_after(edges).contains_key(
                    pair_key(edges[i].v0_id, edges[i].v1_id),
                )
                &&& table_after(edges)[pair_key(edges[i].v0_id, edges[i].v1_id)] == edges[i].id
                &&& table_after(edges).contains_key(pair_key(edges[i].v1_id, edges[i].v0_id))
                &&& table_after(edges)[pair_key(edges[i].v1_id, edges[i].v0_id)] == edges[i].id
            },
{
    lemma_ring_lookup_prefix(edges, vs, edges.len() as int);
    assert(edges.take(edges.len() as int) =~= edges);
}

} // verus!
