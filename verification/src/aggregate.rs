//! The per-frame geometry aggregator: concatenate every resident chunk's
//! vertices into one vertex stream and its indices into one index stream,
//! rebasing each chunk's indices by the number of vertices appended before
//! it. The indices are 16 bits wide, so a frame whose resident chunks reach
//! 65536 vertices cannot be drawn; the aggregator reports that as an error
//! before anything is written to a buffer.

use vstd::prelude::*;

use crate::vertex::Vertex;
use crate::world::{Chunk, World};

verus! {

/// The aggregator's one error: the resident vertex count reached 65536, the
/// first count that no longer fits the 16-bit index width. A fatal
/// configuration error: rendering would silently wrap indices and corrupt
/// geometry.
#[derive(Clone, Copy, Debug, PartialEq, Eq, Structural)]
pub enum AggregateError {
    VertexCountOverflow,
}

/// Total number of vertices over a store's chunk entries.
pub open spec fn total_vertex_count(chunks: Seq<((i32, i32), Chunk)>) -> int
    decreases chunks.len(),
{
    if chunks.len() == 0 {
        0
    } else {
        total_vertex_count(chunks.drop_last()) + chunks.last().1.vertices@.len()
    }
}

/// A prefix of the store never holds more vertices than the whole store.
pub proof fn lemma_total_vertex_count_prefix(chunks: Seq<((i32, i32), Chunk)>, m: int)
    requires
        0 <= m <= chunks.len(),
    ensures
        total_vertex_count(chunks.take(m)) <= total_vertex_count(chunks),
    decreases chunks.len() - m,
{
    if m < chunks.len() {
        assert(chunks.take(m + 1).drop_last() =~= chunks.take(m));
        assert(chunks.take(m + 1).last() == chunks[m]);
        lemma_total_vertex_count_prefix(chunks, m + 1);
    } else {
        assert(chunks.take(m) =~= chunks);
    }
}

/// An index list shifted up by `offset`, truncated to the 16-bit width.
pub open spec fn rebased_indices(indices: Seq<u16>, offset: int) -> Seq<u16> {
    indices.map_values(|i: u16| ((i + offset) as u16))
}

/// The aggregated vertex stream: every chunk's vertices, in store order.
pub open spec fn aggregated_vertices(chunks: Seq<((i32, i32), Chunk)>) -> Seq<Vertex>
    decreases chunks.len(),
{
    if chunks.len() == 0 {
        Seq::empty()
    } else {
        aggregated_vertices(chunks.drop_last()) + chunks.last().1.vertices@
    }
}

/// The aggregated index stream: every chunk's indices, in store order, each
/// chunk's rebased by the number of vertices of the chunks before it.
pub open spec fn aggregated_indices(chunks: Seq<((i32, i32), Chunk)>) -> Seq<u16>
    decreases chunks.len(),
{
    if chunks.len() == 0 {
        Seq::empty()
    } else {
        aggregated_indices(chunks.drop_last()) + rebased_indices(
            chunks.last().1.indices@,
            total_vertex_count(chunks.drop_last()),
        )
    }
}

/// The aggregated vertex stream is as long as the total vertex count.
pub proof fn lemma_aggregated_vertices_len(chunks: Seq<((i32, i32), Chunk)>)
    ensures
        aggregated_vertices(chunks).len() == total_vertex_count(chunks),
    decreases chunks.len(),
{
    if chunks.len() > 0 {
        lemma_aggregated_vertices_len(chunks.drop_last());
    }
}

/// Offset assignment for a pair of chunks, in either store order: the total
/// vertex count is the sum of the two chunks' counts whichever comes first,
/// the chunk stored first keeps its indices unchanged, and the chunk stored
/// second has each index rebased by exactly the first chunk's vertex count.
pub proof fn lemma_aggregate_pair(a: ((i32, i32), Chunk), b: ((i32, i32), Chunk))
    ensures
        total_vertex_count(seq![a, b]) == a.1.vertices@.len() + b.1.vertices@.len(),
        total_vertex_count(seq![b, a]) == total_vertex_count(seq![a, b]),
        aggregated_vertices(seq![a, b]).len() == a.1.vertices@.len() + b.1.vertices@.len(),
        aggregated_indices(seq![a, b]).len() == a.1.indices@.len() + b.1.indices@.len(),
        forall|j: int|
            0 <= j < a.1.indices@.len() ==> aggregated_indices(seq![a, b])[j] == a.1.indices@[j],
        forall|j: int|
            0 <= j < b.1.indices@.len() ==> aggregated_indices(seq![a, b])[a.1.indices@.len() + j]
                == ((b.1.indices@[j] + a.1.vertices@.len()) as u16),
{
    let e = Seq::<((i32, i32), Chunk)>::empty();
    assert(total_vertex_count(e) == 0);
    assert(aggregated_vertices(e) == Seq::<Vertex>::empty());
    assert(aggregated_indices(e) == Seq::<u16>::empty());
    let s = seq![a, b];
    let t = seq![b, a];
    assert(seq![a].drop_last() =~= e);
    assert(seq![a].last() == a);
    assert(total_vertex_count(seq![a]) == a.1.vertices@.len());
    assert(aggregated_vertices(seq![a]) == aggregated_vertices(e) + a.1.vertices@);
    assert(aggregated_indices(seq![a]) == aggregated_indices(e) + rebased_indices(
        a.1.indices@,
        0,
    ));
    assert(seq![b].drop_last() =~= e);
    assert(seq![b].last() == b);
    assert(total_vertex_count(seq![b]) == b.1.vertices@.len());
    assert(s.drop_last() =~= seq![a]);
    assert(s.last() == b);
    assert(total_vertex_count(s) == a.1.vertices@.len() + b.1.vertices@.len());
    assert(t.drop_last() =~= seq![b]);
    assert(t.last() == a);
    assert(total_vertex_count(t) == b.1.vertices@.len() + a.1.vertices@.len());
    lemma_aggregated_vertices_len(s);
    assert(aggregated_indices(s) == aggregated_indices(seq![a]) + rebased_indices(
        b.1.indices@,
        a.1.vertices@.len() as int,
    ));
    assert forall|j: int| 0 <= j < a.1.indices@.len() implies aggregated_indices(s)[j]
        == a.1.indices@[j] by {
        assert(aggregated_indices(s)[j] == rebased_indices(a.1.indices@, 0)[j]);
        assert(rebased_indices(a.1.indices@, 0)[j] == ((a.1.indices@[j] + 0) as u16));
    }
    assert forall|j: int| 0 <= j < b.1.indices@.len() implies aggregated_indices(s)[a.1.indices@.len()
        + j] == ((b.1.indices@[j] + a.1.vertices@.len()) as u16) by {
        assert(aggregated_indices(seq![a]).len() == a.1.indices@.len());
        assert(aggregated_indices(s)[a.1.indices@.len() + j] == rebased_indices(
            b.1.indices@,
            a.1.vertices@.len() as int,
        )[j]);
    }
}

/// Aggregate the store's resident chunks into one vertex stream and one
/// rebased index stream. Fails, touching no buffer, exactly when the
/// resident chunks hold 65536 vertices or more.
pub fn aggregate(world: &World) -> (r: Result<(Vec<Vertex>, Vec<u16>), AggregateError>)
    requires
        world.chunks_ok(),
    ensures
        match r {
            Ok(geometry) => {
                &&& total_vertex_count(world.chunks@) <= 65535
                &&& geometry.0@ == aggregated_vertices(world.chunks@)
                &&& geometry.1@ == aggregated_indices(world.chunks@)
                &&& geometry.0@.len() == total_vertex_count(world.chunks@)
            },
            Err(e) => {
                &&& e == AggregateError::VertexCountOverflow
                &&& total_vertex_count(world.chunks@) >= 65536
            },
        },
{
    let mut out_vertices: Vec<Vertex> = Vec::new();
    let mut out_indices: Vec<u16> = Vec::new();
    let mut ci: usize = 0;
    while ci < world.chunks.len()
        invariant
            world.chunks_ok(),
            ci <= world.chunks@.len(),
            out_vertices@ == aggregated_vertices(world.chunks@.take(ci as int)),
            out_indices@ == aggregated_indices(world.chunks@.take(ci as int)),
            out_vertices@.len() == total_vertex_count(world.chunks@.take(ci as int)),
            out_vertices@.len() <= 65535,
        decreases world.chunks@.len() - ci,
    {
        let chunk = &world.chunks[ci].1;
        let vertex_count = chunk.vertices.len();
        let offset_usize = out_vertices.len();
        proof {
            assert(world.chunks@.take(ci + 1).drop_last() =~= world.chunks@.take(ci as int));
            assert(world.chunks@.take(ci + 1).last() == world.chunks@[ci as int]);
        }
        if vertex_count > 65535 - offset_usize {
            proof {
                lemma_total_vertex_count_prefix(world.chunks@, ci + 1);
            }
            return Err(AggregateError::VertexCountOverflow);
        }
        let offset: u16 = offset_usize as u16;
        let mut k: usize = 0;
        while k < chunk.vertices.len()
            invariant
                k <= chunk.vertices@.len(),
                chunk == &world.chunks@[ci as int].1,
                ci < world.chunks@.len(),
                out_vertices@ == aggregated_vertices(world.chunks@.take(ci as int))
                    + chunk.vertices@.take(k as int),
            decreases chunk.vertices@.len() - k,
        {
            out_vertices.push(chunk.vertices[k]);
            proof {
                assert(chunk.vertices@.take(k + 1) =~= chunk.vertices@.take(k as int).push(
                    chunk.vertices@[k as int],
                ));
            }
            k = k + 1;
        }
        proof {
            assert(chunk.vertices@.take(chunk.vertices@.len() as int) =~= chunk.vertices@);
        }
        let mut k2: usize = 0;
        while k2 < chunk.indices.len()
            invariant
                world.chunks_ok(),
                k2 <= chunk.indices@.len(),
                chunk == &world.chunks@[ci as int].1,
                ci < world.chunks@.len(),
                offset == total_vertex_count(world.chunks@.take(ci as int)),
                offset + chunk.vertices@.len() <= 65535,
                out_indices@ == aggregated_indices(world.chunks@.take(ci as int))
                    + rebased_indices(chunk.indices@, offset as int).take(k2 as int),
            decreases chunk.indices@.len() - k2,
        {
            proof {
                assert(world.chunks@[ci as int].1.indices_valid());
                assert((chunk.indices@[k2 as int] as int) < chunk.vertices@.len());
            }
            out_indices.push(chunk.indices[k2] + offset);
            proof {
                assert(rebased_indices(chunk.indices@, offset as int).take(k2 + 1)
                    =~= rebased_indices(chunk.indices@, offset as int).take(k2 as int).push(
                    ((chunk.indices@[k2 as int] + offset) as u16),
                ));
            }
            k2 = k2 + 1;
        }
        proof {
            let full = rebased_indices(chunk.indices@, offset as int);
            assert(full.take(full.len() as int) =~= full);
            assert(out_vertices@ =~= aggregated_vertices(world.chunks@.take(ci + 1)));
            assert(out_indices@ =~= aggregated_indices(world.chunks@.take(ci + 1)));
        }
        ci = ci + 1;
    }
    proof {
        assert(world.chunks@.take(world.chunks@.len() as int) =~= world.chunks@);
    }
    Ok((out_vertices, out_indices))
}

} // verus!
