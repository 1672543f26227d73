//! Mesh faces, their per-face tesselation, and the aggregation of face
//! tesselations into one deduplicated vertex and index stream.
//!
//! A face is an ordered vertex loop plus a cached triangle-index list
//! chosen by vertex count: three vertices give one triangle, four give two
//! triangles sharing a diagonal, and any other count is rejected with an
//! unsupported-arity error, since general polygon tesselation is out of
//! scope.

use crate::bmesh_edge::BMeshEdgeLoop;
use crate::bmesh_vertex::BMeshVertex;
use std::collections::HashMap;
use vstd::prelude::*;

verus! {

broadcast use vstd::std_specs::hash::group_hash_axioms;

/// The triangulation recipe of a face, selected by vertex count.
#[derive(Clone, Copy, Debug, PartialEq, Eq, Structural)]
pub enum TesselationStrategy {
    /// Three vertices: a single triangle.
    Triangle,
    /// Four vertices: two triangles sharing the diagonal.
    Quad,
}

/// A failure of mesh construction.
#[derive(Clone, Copy, Debug, PartialEq, Eq, Structural)]
pub enum BMeshError {
    /// A face was given a vertex loop whose length no tesselation
    /// strategy supports; carries the offending vertex count.
    UnsupportedArity(usize),
}

/// The vertex count a strategy expects.
pub open spec fn arity_of(s: TesselationStrategy) -> int {
    match s {
        TesselationStrategy::Triangle => 3,
        TesselationStrategy::Quad => 4,
    }
}

/// The local triangle indices of a strategy.
pub open spec fn strategy_indices_s(s: TesselationStrategy) -> Seq<usize> {
    match s {
        TesselationStrategy::Triangle => seq![0usize, 1usize, 2usize],
        TesselationStrategy::Quad => seq![0usize, 1usize, 2usize, 2usize, 3usize, 0usize],
    }
}

/// A tesselation: a vertex list and a list of triangle indices into it.
pub struct BMeshTesselation {
    /// The vertices the indices refer to.
    pub vertices: Vec<BMeshVertex>,
    /// Triangle corners, three consecutive indices per triangle.
    pub indices: Vec<usize>,
}

/// A face: its bounding vertex loop and its cached tesselation.
pub struct BMeshFace {
    /// The ordered vertex loop bounding the face.
    pub defining_edges: BMeshEdgeLoop,
    /// The cached per-face tesselation.
    pub tesselation: BMeshTesselation,
}

/// A face's cache is consistent: the tesselation holds exactly the loop's
/// vertices, and the indices are the recipe for the loop's vertex count.
pub open spec fn face_wf(f: BMeshFace) -> bool {
    &&& f.tesselation.vertices@ == f.defining_edges.defining_vertices@
    &&& {
        ||| (f.tesselation.vertices@.len() == 3 && f.tesselation.indices@ == strategy_indices_s(
            TesselationStrategy::Triangle,
        ))
        ||| (f.tesselation.vertices@.len() == 4 && f.tesselation.indices@ == strategy_indices_s(
            TesselationStrategy::Quad,
        ))
    }
}

/// Every local index of a well-formed face is a valid offset into its
/// vertex list.
pub proof fn lemma_face_indices_in_range(f: BMeshFace)
    requires
        face_wf(f),
    ensures
        forall|i: int|
            0 <= i < f.tesselation.indices@.len() ==> (f.tesselation.indices@[i] as int)
                < f.tesselation.vertices@.len(),
{
}

impl BMeshFace {
    /// Builds a face's tesselation from a vertex loop whose length
    /// matches the strategy's arity; any other length is rejected with an
    /// unsupported-arity error.
    pub fn create(
        defining_edges: BMeshEdgeLoop,
        tesselation_strategy: TesselationStrategy,
    ) -> (r: Result<BMeshFace, BMeshError>)
        ensures
            match r {
                Ok(f) => {
                    &&& defining_edges.defining_vertices@.len() == arity_of(tesselation_strategy)
                    &&& f.defining_edges.defining_vertices@ == defining_edges.defining_vertices@
                    &&& f.tesselation.vertices@ == defining_edges.defining_vertices@
                    &&& f.tesselation.indices@ == strategy_indices_s(tesselation_strategy)
                    &&& face_wf(f)
                },
                Err(e) => {
                    &&& defining_edges.defining_vertices@.len() != arity_of(tesselation_strategy)
                    &&& e == BMeshError::UnsupportedArity(defining_edges.defining_vertices.len())
                },
            },
    {
        let arity: usize = match tesselation_strategy {
            TesselationStrategy::Triangle => 3,
            TesselationStrategy::Quad => 4,
        };
        if defining_edges.defining_vertices.len() != arity {
            return Err(BMeshError::UnsupportedArity(defining_edges.defining_vertices.len()));
        }
        let tesselation = Self::tesselate_edge_loop(&defining_edges, tesselation_strategy);
        Ok(BMeshFace { defining_edges, tesselation })
    }

    /// The tesselation of a vertex loop under a strategy: the loop's
    /// vertices with the strategy's triangle indices.
    pub fn tesselate_edge_loop(
        edge_loop: &BMeshEdgeLoop,
        tesselation_strategy: TesselationStrategy,
    ) -> (t: BMeshTesselation)
        ensures
            t.vertices@ == edge_loop.defining_vertices@,
            t.indices@ == strategy_indices_s(tesselation_strategy),
    {
        let vertices = edge_loop.get_vertices();
        let indices: Vec<usize> = match tesselation_strategy {
            TesselationStrategy::Triangle => {
                let v: Vec<usize> = vec![0, 1, 2];
                v
            },
            TesselationStrategy::Quad => {
                let v: Vec<usize> = vec![0, 1, 2, 2, 3, 0];
                v
            },
        };
        proof {
            assert(indices@ =~= strategy_indices_s(tesselation_strategy));
        }
        BMeshTesselation { vertices, indices }
    }
}

/// Whether some vertex in `s` carries identifier `id`.
pub open spec fn has_vertex_id(s: Seq<BMeshVertex>, id: u32) -> bool {
    exists|i: int| 0 <= i < s.len() && s[i].id == id
}

/// The deduplicated form of a vertex stream: a vertex is kept at its
/// identifier's first occurrence and dropped afterwards.
pub open spec fn dedup_verts(s: Seq<BMeshVertex>) -> Seq<BMeshVertex>
    decreases s.len(),
{
    if s.len() == 0 {
        Seq::empty()
    } else {
        let p = dedup_verts(s.drop_last());
        if has_vertex_id(p, s.last().id) {
            p
        } else {
            p.push(s.last())
        }
    }
}

/// The concatenation of the faces' tesselation vertices, in face order.
pub open spec fn stream_of(faces: Seq<BMeshFace>) -> Seq<BMeshVertex>
    decreases faces.len(),
{
    if faces.len() == 0 {
        Seq::empty()
    } else {
        stream_of(faces.drop_last()) + faces.last().tesselation.vertices@
    }
}

/// The slot of identifier `id` in vertex list `v`: meaningful when the
/// identifier occurs and the list never repeats one.
pub open spec fn slot_of(v: Seq<BMeshVertex>, id: u32) -> int {
    choose|i: int| 0 <= i < v.len() && v[i].id == id
}

/// One face's triangle indices remapped into the slots of vertex list
/// `v`.
pub open spec fn face_indices_in(f: BMeshFace, v: Seq<BMeshVertex>) -> Seq<usize> {
    f.tesselation.indices@.map_values(
        |li: usize| slot_of(v, f.tesselation.vertices@[li as int].id) as usize,
    )
}

/// All faces' triangle indices remapped into the slots of `v`, in face
/// order.
pub open spec fn indices_of(faces: Seq<BMeshFace>, v: Seq<BMeshVertex>) -> Seq<usize>
    decreases faces.len(),
{
    if faces.len() == 0 {
        Seq::empty()
    } else {
        indices_of(faces.drop_last(), v) + face_indices_in(faces.last(), v)
    }
}

/// Law: deduplication never repeats an identifier, so a given vertex id
/// keeps exactly one slot.
pub proof fn lemma_dedup_ids_unique(s: Seq<BMeshVertex>)
    ensures
        forall|i: int, j: int|
            0 <= i < j < dedup_verts(s).len() ==> dedup_verts(s)[i].id != dedup_verts(s)[j].id,
    decreases s.len(),
{
    if s.len() > 0 {
        let p = dedup_verts(s.drop_last());
        lemma_dedup_ids_unique(s.drop_last());
        if !has_vertex_id(p, s.last().id) {
            assert forall|i: int, j: int|
                0 <= i < j < dedup_verts(s).len() implies dedup_verts(s)[i].id != dedup_verts(
                s,
            )[j].id by {
                if j == p.len() {
                    if dedup_verts(s)[i].id == s.last().id {
                        assert(p[i].id == s.last().id);
                        assert(has_vertex_id(p, s.last().id));
                    }
                }
            }
        }
    }
}

/// Law: deduplication keeps exactly the identifiers of the stream.
pub proof fn lemma_dedup_has_same_ids(s: Seq<BMeshVertex>, id: u32)
    ensures
        has_vertex_id(dedup_verts(s), id) == has_vertex_id(s, id),
    decreases s.len(),
{
    if s.len() > 0 {
        lemma_dedup_has_same_ids(s.drop_last(), id);
        let p = dedup_verts(s.drop_last());
        let d = dedup_verts(s);
        if has_vertex_id(s, id) {
            let w = choose|i: int| 0 <= i < s.len() && s[i].id == id;
            if w < s.len() - 1 {
                assert(s.drop_last()[w].id == id);
                assert(has_vertex_id(s.drop_last(), id));
                let u = choose|i: int| 0 <= i < p.len() && p[i].id == id;
                assert(d[u].id == id);
                assert(has_vertex_id(d, id));
            } else {
                assert(s.last().id == id);
                if has_vertex_id(p, s.last().id) {
                    assert(d == p);
                    assert(has_vertex_id(d, id));
                } else {
                    assert(d == p.push(s.last()));
                    assert(d[p.len() as int].id == id);
                    assert(has_vertex_id(d, id));
                }
            }
        }
        if has_vertex_id(d, id) {
            let w = choose|i: int| 0 <= i < d.len() && d[i].id == id;
            if w < p.len() {
                assert(d[w] == p[w]);
                assert(has_vertex_id(p, id));
                let u = choose|i: int| 0 <= i < s.drop_last().len() && s.drop_last()[i].id == id;
                assert(s[u].id == id);
                assert(has_vertex_id(s, id));
            } else {
                assert(d == p.push(s.last()));
                assert(d[w] == s.last());
                assert(s[s.len() - 1].id == id);
                assert(has_vertex_id(s, id));
            }
        }
    }
}

/// Law: deduplicating a longer stream extends the deduplication of a
/// prefix; slots never move once assigned.
pub proof fn lemma_dedup_prefix(s: Seq<BMeshVertex>, t: Seq<BMeshVertex>)
    ensures
        dedup_verts(s).is_prefix_of(dedup_verts(s + t)),
    decreases t.len(),
{
    if t.len() == 0 {
        assert(s + t =~= s);
    } else {
        lemma_dedup_prefix(s, t.drop_last());
        assert((s + t).drop_last() =~= s + t.drop_last());
        let p = dedup_verts(s + t.drop_last());
        assert(dedup_verts(s + t) == dedup_verts((s + t).drop_last()).push((s + t).last())
            || dedup_verts(s + t) == dedup_verts((s + t).drop_last()));
        assert(p.is_prefix_of(p.push((s + t).last())));
    }
}

/// Streams concatenate: the vertex stream of appended face lists is the
/// concatenation of their streams.
pub proof fn lemma_stream_concat(a: Seq<BMeshFace>, b: Seq<BMeshFace>)
    ensures
        stream_of(a + b) == stream_of(a) + stream_of(b),
    decreases b.len(),
{
    if b.len() == 0 {
        assert(a + b =~= a);
        assert(stream_of(a) + stream_of(b) =~= stream_of(a));
    } else {
        lemma_stream_concat(a, b.drop_last());
        assert((a + b).drop_last() =~= a + b.drop_last());
        assert(stream_of(a + b) =~= stream_of(a) + stream_of(b));
    }
}

/// In a vertex list without repeated identifiers, the slot of an
/// identifier is the position it is seen at.
pub proof fn lemma_slot_of_unique(v: Seq<BMeshVertex>, id: u32, i: int)
    requires
        0 <= i < v.len(),
        v[i].id == id,
        forall|a: int, b: int| 0 <= a < b < v.len() ==> v[a].id != v[b].id,
    ensures
        slot_of(v, id) == i,
{
    assert(0 <= i < v.len() && v[i].id == id);
    let j = slot_of(v, id);
    assert(0 <= j < v.len() && v[j].id == id);
    if i < j {
        assert(v[i].id != v[j].id);
    }
    if j < i {
        assert(v[j].id != v[i].id);
    }
}

/// The slot map agrees with a vertex list: it holds exactly the list's
/// identifiers, each mapped to the slot of the vertex carrying it.
pub open spec fn slot_map_consistent(m: Map<u32, usize>, v: Seq<BMeshVertex>) -> bool {
    &&& forall|id: u32|
        #[trigger] m.contains_key(id) ==> 0 <= m[id] < v.len() && v[m[id] as int].id == id
    &&& forall|id: u32| #[trigger] has_vertex_id(v, id) ==> m.contains_key(id)
}

impl BMeshFace {
    /// Aggregates the faces' tesselations into one vertex and index
    /// stream: scanning faces in order and each face's vertices in order,
    /// the first occurrence of a vertex identifier takes the next free
    /// slot and later occurrences reuse it; each face's triangle indices
    /// are emitted remapped through those slots. Every output index is a
    /// valid offset into the output vertex list.
    pub fn aggregate_tesselations(faces: &Vec<BMeshFace>) -> (r: BMeshTesselation)
        requires
            forall|i: int| 0 <= i < faces@.len() ==> #[trigger] face_wf(faces@[i]),
        ensures
            r.vertices@ == dedup_verts(stream_of(faces@)),
            r.indices@ == indices_of(faces@, r.vertices@),
            forall|i: int| 0 <= i < r.indices@.len() ==> (r.indices@[i] as int) < r.vertices@.len(),
    {
        let ghost vstar = dedup_verts(stream_of(faces@));
        proof {
            lemma_dedup_ids_unique(stream_of(faces@));
        }
        let mut vertices: Vec<BMeshVertex> = Vec::new();
        let mut indices: Vec<usize> = Vec::new();
        let mut index_lookup: HashMap<u32, usize> = HashMap::new();
        let mut fi: usize = 0;
        while fi < faces.len()
            invariant
                0 <= fi <= faces.len(),
                forall|i: int| 0 <= i < faces@.len() ==> #[trigger] face_wf(faces@[i]),
                vstar == dedup_verts(stream_of(faces@)),
                forall|a: int, b: int| 0 <= a < b < vstar.len() ==> vstar[a].id != vstar[b].id,
                vertices@ == dedup_verts(stream_of(faces@.take(fi as int))),
                slot_map_consistent(index_lookup@, vertices@),
                indices@ == indices_of(faces@.take(fi as int), vstar),
                forall|i: int|
                    0 <= i < indices@.len() ==> (indices@[i] as int) < vertices@.len(),
            decreases faces.len() - fi,
        {
            let face = &faces[fi];
            let ghost base = stream_of(faces@.take(fi as int));
            let mut vi: usize = 0;
            while vi < face.tesselation.vertices.len()
                invariant
                    0 <= vi <= face.tesselation.vertices@.len(),
                    0 <= fi < faces.len(),
                    face == &faces@[fi as int],
                    base == stream_of(faces@.take(fi as int)),
                    vertices@ == dedup_verts(base + face.tesselation.vertices@.take(vi as int)),
                    slot_map_consistent(index_lookup@, vertices@),
                    forall|i: int|
                        0 <= i < indices@.len() ==> (indices@[i] as int) < vertices@.len(),
                decreases face.tesselation.vertices@.len() - vi,
            {
                let v = face.tesselation.vertices[vi];
                let ghost strm = base + face.tesselation.vertices@.take(vi as int);
                proof {
                    assert(base + face.tesselation.vertices@.take(vi as int + 1) =~= strm.push(v));
                    assert(strm.push(v).drop_last() =~= strm);
                    assert(strm.push(v).last() == v);
                }
                match index_lookup.get(&v.id) {
                    Some(_) => {
                        proof {
                            let slot = index_lookup@[v.id];
                            assert(vertices@[slot as int].id == v.id);
                            assert(has_vertex_id(vertices@, v.id));
                            assert(dedup_verts(strm.push(v)) == vertices@);
                        }
                    },
                    None => {
                        proof {
                            if has_vertex_id(vertices@, v.id) {
                                assert(index_lookup@.contains_key(v.id));
                            }
                            assert(dedup_verts(strm.push(v)) == vertices@.push(v));
                        }
                        let slot = vertices.len();
                        let ghost m0 = index_lookup@;
                        let ghost verts0 = vertices@;
                        index_lookup.insert(v.id, slot);
                        vertices.push(v);
                        proof {
                            assert(vertices@.drop_last() =~= verts0);
                            assert forall|id: u32| #[trigger]
                                index_lookup@.contains_key(id) implies 0 <= index_lookup@[id]
                                < vertices@.len() && vertices@[index_lookup@[id] as int].id
                                == id by {
                                if id != v.id {
                                    assert(m0.contains_key(id));
                                    assert(vertices@[m0[id] as int]
                                        == vertices@.drop_last()[m0[id] as int]);
                                }
                            }
                            assert forall|id: u32| #[trigger]
                                has_vertex_id(vertices@, id) implies index_lookup@.contains_key(
                                id,
                            ) by {
                                let w = choose|i: int|
                                    0 <= i < vertices@.len() && vertices@[i].id == id;
                                if w < vertices@.len() - 1 {
                                    assert(vertices@[w] == verts0[w]);
                                    assert(has_vertex_id(verts0, id));
                                    assert(m0.contains_key(id));
                                } else {
                                    assert(id == v.id);
                                }
                            }
                        }
                    },
                }
                vi = vi + 1;
            }
            proof {
                assert(face.tesselation.vertices@.take(face.tesselation.vertices@.len() as int)
                    =~= face.tesselation.vertices@);
                assert(faces@.take(fi as int + 1).drop_last() =~= faces@.take(fi as int));
                assert(faces@.take(fi as int + 1).last() == faces@[fi as int]);
                assert(stream_of(faces@.take(fi as int + 1)) =~= base
                    + face.tesselation.vertices@);
                assert(vertices@ == dedup_verts(stream_of(faces@.take(fi as int + 1))));
                // The vertices gathered so far are a prefix of the final
                // list, so the slots assigned so far are final.
                assert(faces@.take(fi as int + 1) + faces@.skip(fi as int + 1) =~= faces@);
                lemma_stream_concat(faces@.take(fi as int + 1), faces@.skip(fi as int + 1));
                lemma_dedup_prefix(
                    stream_of(faces@.take(fi as int + 1)),
                    stream_of(faces@.skip(fi as int + 1)),
                );
                assert(vertices@.is_prefix_of(vstar));
            }
            let mut ii: usize = 0;
            while ii < face.tesselation.indices.len()
                invariant
                    0 <= ii <= face.tesselation.indices@.len(),
                    0 <= fi < faces.len(),
                    face == &faces@[fi as int],
                    face_wf(faces@[fi as int]),
                    vstar == dedup_verts(stream_of(faces@)),
                    forall|a: int, b: int| 0 <= a < b < vstar.len() ==> vstar[a].id != vstar[b].id,
                    vertices@ == dedup_verts(stream_of(faces@.take(fi as int + 1))),
                    vertices@.is_prefix_of(vstar),
                    slot_map_consistent(index_lookup@, vertices@),
                    indices@ == indices_of(faces@.take(fi as int), vstar) + face_indices_in(
                        faces@[fi as int],
                        vstar,
                    ).take(ii as int),
                    forall|i: int|
                        0 <= i < indices@.len() ==> (indices@[i] as int) < vertices@.len(),
                decreases face.tesselation.indices@.len() - ii,
            {
                let li = face.tesselation.indices[ii];
                let v = face.tesselation.vertices[li];
                proof {
                    let fverts = face.tesselation.vertices@;
                    let strm = stream_of(faces@.take(fi as int + 1));
                    assert(faces@.take(fi as int + 1).drop_last() =~= faces@.take(fi as int));
                    assert(strm =~= stream_of(faces@.take(fi as int)) + fverts);
                    assert(strm[stream_of(faces@.take(fi as int)).len() + li as int] == v);
                    assert(has_vertex_id(strm, v.id));
                    lemma_dedup_has_same_ids(strm, v.id);
                    assert(has_vertex_id(vertices@, v.id));
                }
                let slot: usize = match index_lookup.get(&v.id) {
                    Some(s) => *s,
                    None => {
                        proof {
                            assert(false);
                        }
                        0
                    },
                };
                indices.push(slot);
                proof {
                    assert(vertices@[slot as int].id == v.id);
                    assert(vstar[slot as int] == vertices@[slot as int]);
                    lemma_slot_of_unique(vstar, v.id, slot as int);
                    assert(face_indices_in(faces@[fi as int], vstar)[ii as int] == slot);
                    assert(face_indices_in(faces@[fi as int], vstar).take(ii as int + 1)
                        =~= face_indices_in(faces@[fi as int], vstar).take(ii as int).push(slot));
                    assert(indices@ =~= indices_of(faces@.take(fi as int), vstar)
                        + face_indices_in(faces@[fi as int], vstar).take(ii as int + 1));
                }
                ii = ii + 1;
            }
            proof {
                assert(face_indices_in(faces@[fi as int], vstar).take(
                    face.tesselation.indices@.len() as int,
                ) =~= face_indices_in(faces@[fi as int], vstar));
                assert(faces@.take(fi as int + 1).drop_last() =~= faces@.take(fi as int));
                assert(faces@.take(fi as int + 1).last() == faces@[fi as int]);
                assert(indices@ =~= indices_of(faces@.take(fi as int + 1), vstar));
            }
            fi = fi + 1;
        }
        proof {
            assert(faces@.take(faces@.len() as int) =~= faces@);
        }
        BMeshTesselation { vertices, indices }
    }
}

} // verus!
