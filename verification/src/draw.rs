//! Preparing collections of meshes for a single draw call: the vertex and
//! index data of all meshes copied into one pair of flat streams, which a
//! renderer uploads as one vertex and one index buffer.

use crate::meshes::Mesh;
use crate::vertex::Vertex;
use vstd::prelude::*;

verus! {

/// How a prepared mesh is to be drawn.
pub enum DrawCommandKind {
    /// One indexed draw call over all the indices.
    DrawIndexedAll,
}

/// The concatenation of the meshes' vertex lists, in mesh order.
pub open spec fn flat_vertices_s(meshes: Seq<Mesh>) -> Seq<Vertex>
    decreases meshes.len(),
{
    if meshes.len() == 0 {
        Seq::empty()
    } else {
        flat_vertices_s(meshes.drop_last()) + meshes.last().vertices@
    }
}

/// The concatenation of the meshes' index lists, in mesh order.
pub open spec fn flat_indices_s(meshes: Seq<Mesh>) -> Seq<u16>
    decreases meshes.len(),
{
    if meshes.len() == 0 {
        Seq::empty()
    } else {
        flat_indices_s(meshes.drop_last()) + meshes.last().indices@
    }
}

fn append_vertices(dst: &mut Vec<Vertex>, src: &Vec<Vertex>)
    ensures
        final(dst)@ == old(dst)@ + src@,
{
    let mut i: usize = 0;
    while i < src.len()
        invariant
            0 <= i <= src@.len(),
            dst@ == old(dst)@ + src@.take(i as int),
        decreases src@.len() - i,
    {
        dst.push(src[i]);
        proof {
            assert(dst@ =~= old(dst)@ + src@.take(i as int + 1));
        }
        i = i + 1;
    }
    proof {
        assert(dst@ =~= old(dst)@ + src@);
    }
}

fn append_indices(dst: &mut Vec<u16>, src: &Vec<u16>)
    ensures
        final(dst)@ == old(dst)@ + src@,
{
    let mut i: usize = 0;
    while i < src.len()
        invariant
            0 <= i <= src@.len(),
            dst@ == old(dst)@ + src@.take(i as int),
        decreases src@.len() - i,
    {
        dst.push(src[i]);
        proof {
            assert(dst@ =~= old(dst)@ + src@.take(i as int + 1));
        }
        i = i + 1;
    }
    proof {
        assert(dst@ =~= old(dst)@ + src@);
    }
}

/// Copies the vertex and index data of a collection of meshes into a
/// single flat vertex stream and a single flat index stream, in mesh
/// order, for one draw call over them all.
pub fn collect_meshes_into_buffers(meshes: &Vec<Mesh>) -> (r: (Vec<Vertex>, Vec<u16>))
    ensures
        r.0@ == flat_vertices_s(meshes@),
        r.1@ == flat_indices_s(meshes@),
{
    let mut vertices: Vec<Vertex> = Vec::new();
    let mut indices: Vec<u16> = Vec::new();
    let mut i: usize = 0;
    while i < meshes.len()
        invariant
            0 <= i <= meshes@.len(),
            vertices@ == flat_vertices_s(meshes@.take(i as int)),
            indices@ == flat_indices_s(meshes@.take(i as int)),
        decreases meshes@.len() - i,
    {
        append_vertices(&mut vertices, &meshes[i].vertices);
        append_indices(&mut indices, &meshes[i].indices);
        proof {
            assert(meshes@.take(i as int + 1).drop_last() =~= meshes@.take(i as int));
            assert(meshes@.take(i as int + 1).last() == meshes@[i as int]);
        }
        i = i + 1;
    }
    proof {
        assert(meshes@.take(meshes@.len() as int) =~= meshes@);
    }
    (vertices, indices)
}

} // verus!
