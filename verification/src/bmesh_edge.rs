//! Mesh edges and the shared-edge lookup table.
//!
//! The table maps a pair of vertex identifiers to the identifier of the
//! edge connecting them, indexed symmetrically: an inserted edge is
//! reachable under both orderings of its endpoints. Inserting a second
//! edge between the same two vertices replaces the entry; this mirrors
//! the table's documented policy rather than raising an error.

use crate::bmesh_vertex::BMeshVertex;
use std::collections::HashMap;
use vstd::prelude::*;

verus! {

broadcast use vstd::std_specs::hash::group_hash_axioms;

/// An edge between two vertices, identified by a generated id and
/// undirected for lookup purposes.
#[derive(Clone, Copy, Debug, PartialEq, Eq, Structural)]
pub struct BMeshEdge {
    /// The generated edge identifier.
    pub id: u32,
    /// Identifier of the first endpoint.
    pub v0_id: u32,
    /// Identifier of the second endpoint.
    pub v1_id: u32,
}

/// The key under which the ordered pair of vertex identifiers `(a, b)` is
/// stored: an injective packing of the pair into 64 bits.
pub open spec fn pair_key(a: u32, b: u32) -> u64 {
    (a * 0x100000000 + b) as u64
}

/// Takes pairs of vertex identifiers as keys; looking up with two
/// vertices returns the unique edge between them, under either ordering.
pub struct BMeshEdgeLookupTable {
    table: HashMap<u64, u32>,
}

impl BMeshEdgeLookupTable {
    /// What the table holds: a map from packed identifier pairs to edge
    /// identifiers.
    pub closed spec fn contents(&self) -> Map<u64, u32> {
        self.table@
    }

    /// Builds an empty table.
    pub fn new() -> (t: Self)
        ensures
            t.contents() == Map::<u64, u32>::empty(),
    {
        BMeshEdgeLookupTable { table: HashMap::new() }
    }

    /// Registers an edge under both orderings of its endpoints,
    /// replacing any edge previously stored for the pair.
    pub fn insert_edge(&mut self, item: &BMeshEdge)
        ensures
            final(self).contents() == old(self).contents().insert(
                pair_key(item.v0_id, item.v1_id),
                item.id,
            ).insert(pair_key(item.v1_id, item.v0_id), item.id),
    {
        let key0 = pack_pair(item.v0_id, item.v1_id);
        let key1 = pack_pair(item.v1_id, item.v0_id);
        self.table.insert(key0, item.id);
        self.table.insert(key1, item.id);
    }

    /// The edge stored for the vertex pair `(id0, id1)`, if any.
    pub fn get_edge(&self, id0: u32, id1: u32) -> (r: Option<u32>)
        ensures
            r == if self.contents().contains_key(pair_key(id0, id1)) {
                Some(self.contents()[pair_key(id0, id1)])
            } else {
                Option::<u32>::None
            },
    {
        let key = pack_pair(id0, id1);
        match self.table.get(&key) {
            Some(edge_id) => Some(*edge_id),
            None => None,
        }
    }
}

/// Packs an ordered pair of identifiers into its table key.
fn pack_pair(a: u32, b: u32) -> (k: u64)
    ensures
        k == pair_key(a, b),
{
    (a as u64) * 0x100000000 + (b as u64)
}

impl BMeshEdge {
    /// Allocates an edge between the two vertices with a freshly drawn
    /// identifier and registers it in the lookup table under both
    /// orderings of the endpoints.
    pub fn create(
        v0: &BMeshVertex,
        v1: &BMeshVertex,
        lookup_table: &mut BMeshEdgeLookupTable,
    ) -> (e: BMeshEdge)
        ensures
            e.v0_id == v0.id,
            e.v1_id == v1.id,
            final(lookup_table).contents() == old(lookup_table).contents().insert(
                pair_key(v0.id, v1.id),
                e.id,
            ).insert(pair_key(v1.id, v0.id), e.id),
    {
        let to_return = BMeshEdge { id: crate::rng::random_u32(), v0_id: v0.id, v1_id: v1.id };
        lookup_table.insert_edge(&to_return);
        to_return
    }

    /// Identifier of the first endpoint.
    pub fn get_v0_id(&self) -> (r: u32)
        ensures
            r == self.v0_id,
    {
        self.v0_id
    }

    /// Identifier of the second endpoint.
    pub fn get_v1_id(&self) -> (r: u32)
        ensures
            r == self.v1_id,
    {
        self.v1_id
    }
}

/// An ordered loop of vertices bounding a face, assumed counter-clockwise.
pub struct BMeshEdgeLoop {
    /// The vertices of the loop, in order.
    pub defining_vertices: Vec<BMeshVertex>,
}

impl BMeshEdgeLoop {
    /// Builds a loop from its vertices, kept in order.
    pub fn new(defining_vertices: Vec<BMeshVertex>) -> (l: BMeshEdgeLoop)
        ensures
            l.defining_vertices@ == defining_vertices@,
    {
        BMeshEdgeLoop { defining_vertices }
    }

    /// A copy of the loop's vertices, in order.
    pub fn get_vertices(&self) -> (r: Vec<BMeshVertex>)
        ensures
            r@ == self.defining_vertices@,
    {
        let mut out: Vec<BMeshVertex> = Vec::new();
        let mut i: usize = 0;
        while i < self.defining_vertices.len()
            invariant
                0 <= i <= self.defining_vertices.len(),
                out@ == self.defining_vertices@.take(i as int),
            decreases self.defining_vertices.len() - i,
        {
            out.push(self.defining_vertices[i]);
            proof {
                assert(out@ =~= self.defining_vertices@.take(i as int + 1));
            }
            i = i + 1;
        }
        proof {
            assert(out@ =~= self.defining_vertices@);
        }
        out
    }
}

/// Law: an inserted edge is reachable from both orderings of its
/// endpoints, whatever the table held before.
pub proof fn lemma_edge_reachable_both_ways(m: Map<u64, u32>, e: BMeshEdge)
    ensures
        m.insert(pair_key(e.v0_id, e.v1_id), e.id).insert(pair_key(e.v1_id, e.v0_id), e.id)
            .contains_key(pair_key(e.v0_id, e.v1_id)),
        m.insert(pair_key(e.v0_id, e.v1_id), e.id).insert(pair_key(e.v1_id, e.v0_id), e.id)[
            pair_key(e.v0_id, e.v1_id)
        ] == e.id,
        m.insert(pair_key(e.v0_id, e.v1_id), e.id).insert(pair_key(e.v1_id, e.v0_id), e.id)
            .contains_key(pair_key(e.v1_id, e.v0_id)),
        m.insert(pair_key(e.v0_id, e.v1_id), e.id).insert(pair_key(e.v1_id, e.v0_id), e.id)[
            pair_key(e.v1_id, e.v0_id)
        ] == e.id,
{
    if pair_key(e.v0_id, e.v1_id) != pair_key(e.v1_id, e.v0_id) {
    }
}

/// Law: the pair packing is injective, so distinct vertex pairs never
/// collide in the table.
pub proof fn lemma_pair_key_injective(a1: u32, b1: u32, a2: u32, b2: u32)
    requires
        pair_key(a1, b1) == pair_key(a2, b2),
    ensures
        a1 == a2,
        b1 == b2,
{
    assert(a1 as int * 0x100000000 + b1 as int == a2 as int * 0x100000000 + b2 as int);
    assert(a1 == a2 && b1 == b2) by (nonlinear_arith)
        requires
            a1 as int * 0x100000000 + b1 as int == a2 as int * 0x100000000 + b2 as int,
            0 <= a1 as int && (a1 as int) < 0x100000000,
            0 <= b1 as int && (b1 as int) < 0x100000000,
            0 <= a2 as int && (a2 as int) < 0x100000000,
            0 <= b2 as int && (b2 as int) < 0x100000000;
}

} // verus!
