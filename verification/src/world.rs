//! The chunk store: a mapping from grid coordinates to generated chunk
//! meshes. A coordinate is resident at most once, its mesh is exactly the
//! generator's output for that coordinate, and a mesh is created on first
//! load and removed only by eviction — never regenerated or refreshed while
//! resident.

use vstd::prelude::*;

use crate::chunk::{
    chunk_indices_spec, chunk_vertices_spec, generate_chunk_indices, generate_chunk_vertices,
    lemma_chunk_indices_valid, valid_chunk_size,
};
use crate::vertex::Vertex;

verus! {

/// One resident chunk's mesh: its vertex list and its local 16-bit index
/// list.
#[derive(Debug, PartialEq, Eq)]
pub struct Chunk {
    pub vertices: Vec<Vertex>,
    pub indices: Vec<u16>,
}

impl Chunk {
    /// Every index references one of the chunk's own vertices.
    pub open spec fn indices_valid(self) -> bool {
        forall|k: int|
            0 <= k < self.indices@.len() ==> (self.indices@[k] as int) < self.vertices@.len()
    }

    /// The mesh is exactly what the generator produces for `coord` at edge
    /// length `size`.
    pub open spec fn is_generated(self, coord: (i32, i32), size: int) -> bool {
        self.vertices@ == chunk_vertices_spec(coord.0 as int, coord.1 as int, size)
            && self.indices@ == chunk_indices_spec(size)
    }
}

/// The store itself: the resident chunks, keyed by grid coordinate, plus the
/// configured chunk edge length.
#[derive(Debug, PartialEq, Eq)]
pub struct World {
    pub chunks: Vec<((i32, i32), Chunk)>,
    pub chunk_size: usize,
}

/// How one `load_chunk` call changes the store: nothing at all when `coord`
/// is already resident, else exactly one generated mesh appended for
/// `coord`.
pub open spec fn load_step(pre: World, post: World, coord: (i32, i32)) -> bool {
    &&& post.chunk_size == pre.chunk_size
    &&& if pre.resident(coord) {
        post == pre
    } else {
        &&& post.chunks@.len() == pre.chunks@.len() + 1
        &&& post.chunks@.drop_last() == pre.chunks@
        &&& post.chunks@.last().0 == coord
        &&& post.chunks@.last().1.is_generated(coord, pre.chunk_size as int)
    }
}

/// After a load step the coordinate is resident.
pub proof fn lemma_load_step_resident(pre: World, post: World, coord: (i32, i32))
    requires
        load_step(pre, post, coord),
    ensures
        post.resident(coord),
{
    if pre.resident(coord) {
        let i = choose|i: int| 0 <= i < pre.chunks@.len() && pre.chunks@[i].0 == coord;
        assert(post.chunks@[i].0 == coord);
    } else {
        assert(post.chunks@[post.chunks@.len() - 1].0 == coord);
    }
}

/// Loading is idempotent: a second load of the same coordinate leaves the
/// store byte-identical to what the first load produced.
pub proof fn lemma_load_idempotent(w0: World, w1: World, w2: World, coord: (i32, i32))
    requires
        load_step(w0, w1, coord),
        load_step(w1, w2, coord),
    ensures
        w2 == w1,
{
    lemma_load_step_resident(w0, w1, coord);
}

impl World {
    /// `coord` currently has a mesh in the store.
    pub open spec fn resident(self, coord: (i32, i32)) -> bool {
        exists|i: int| 0 <= i < self.chunks@.len() && self.chunks@[i].0 == coord
    }

    /// Store invariant: the edge length fits the index width, no coordinate
    /// appears twice, and every resident mesh is the generator's output for
    /// its own coordinate.
    pub open spec fn wf(self) -> bool {
        &&& valid_chunk_size(self.chunk_size as int)
        &&& forall|i: int, j: int|
            0 <= i < j < self.chunks@.len() ==> (#[trigger] self.chunks@[i]).0 != (
            #[trigger] self.chunks@[j]).0
        &&& forall|i: int|
            0 <= i < self.chunks@.len() ==> (#[trigger] self.chunks@[i]).1.is_generated(
                self.chunks@[i].0,
                self.chunk_size as int,
            )
    }

    /// Every resident mesh's indices reference its own vertices; follows from
    /// the invariant.
    pub open spec fn chunks_ok(self) -> bool {
        forall|i: int|
            0 <= i < self.chunks@.len() ==> (#[trigger] self.chunks@[i]).1.indices_valid()
    }

    /// A well-formed store only holds meshes whose indices are in range.
    pub proof fn lemma_wf_implies_chunks_ok(self)
        requires
            self.wf(),
        ensures
            self.chunks_ok(),
    {
        assert forall|i: int| 0 <= i < self.chunks@.len() implies (
        #[trigger] self.chunks@[i]).1.indices_valid() by {
            lemma_chunk_indices_valid(self.chunk_size as int);
        }
    }

    /// An empty store with the given chunk edge length.
    pub fn new(chunk_size: usize) -> (w: World)
        requires
            valid_chunk_size(chunk_size as int),
        ensures
            w.wf(),
            w.chunk_size == chunk_size,
            w.chunks@.len() == 0,
    {
        World { chunks: Vec::new(), chunk_size }
    }

    /// The position of `coord` in the store, if it is resident.
    fn find_index(&self, coord: (i32, i32)) -> (r: Option<usize>)
        ensures
            match r {
                Some(i) => i < self.chunks@.len() && self.chunks@[i as int].0 == coord,
                None => !self.resident(coord),
            },
    {
        let mut i: usize = 0;
        while i < self.chunks.len()
            invariant
                i <= self.chunks@.len(),
                forall|j: int| 0 <= j < i ==> (#[trigger] self.chunks@[j]).0 != coord,
            decreases self.chunks@.len() - i,
        {
            let entry = &self.chunks[i];
            if entry.0.0 == coord.0 && entry.0.1 == coord.1 {
                return Some(i);
            }
            i = i + 1;
        }
        None
    }

    /// Load `coord`: if it is absent, generate its mesh and insert it; if it
    /// is already resident, do nothing at all, so a second load leaves the
    /// store byte-identical to the first.
    pub fn load_chunk(&mut self, chunk_pos: (i32, i32))
        requires
            old(self).wf(),
        ensures
            final(self).wf(),
            final(self).chunk_size == old(self).chunk_size,
            final(self).resident(chunk_pos),
            old(self).resident(chunk_pos) ==> *final(self) == *old(self),
            !old(self).resident(chunk_pos) ==> {
                &&& final(self).chunks@.len() == old(self).chunks@.len() + 1
                &&& final(self).chunks@.drop_last() == old(self).chunks@
                &&& final(self).chunks@.last().0 == chunk_pos
                &&& final(self).chunks@.last().1.is_generated(chunk_pos, old(self).chunk_size as int)
            },
            forall|c: (i32, i32)|
                final(self).resident(c) <==> old(self).resident(c) || c == chunk_pos,
            load_step(*old(self), *final(self), chunk_pos),
    {
        match self.find_index(chunk_pos) {
            Some(_) => {
                assert(forall|c: (i32, i32)|
                    self.resident(c) <==> old(self).resident(c) || c == chunk_pos);
            },
            None => {
                let vertices = generate_chunk_vertices(chunk_pos, self.chunk_size);
                let indices = generate_chunk_indices(self.chunk_size);
                self.chunks.push((chunk_pos, Chunk { vertices, indices }));
                proof {
                    let n = old(self).chunks@.len() as int;
                    assert(self.chunks@.drop_last() =~= old(self).chunks@);
                    assert forall|i: int, j: int|
                        0 <= i < j < self.chunks@.len() implies (#[trigger] self.chunks@[i]).0 != (
                    #[trigger] self.chunks@[j]).0 by {
                        if j == n {
                            assert(!old(self).resident(chunk_pos));
                            assert(old(self).chunks@[i].0 != chunk_pos);
                        }
                    }
                    assert forall|c: (i32, i32)|
                        self.resident(c) <==> old(self).resident(c) || c == chunk_pos by {
                        assert(self.chunks@[n].0 == chunk_pos);
                        if old(self).resident(c) {
                            let i = choose|i: int|
                                0 <= i < old(self).chunks@.len() && old(self).chunks@[i].0 == c;
                            assert(self.chunks@[i].0 == c);
                        }
                        if self.resident(c) {
                            let i = choose|i: int|
                                0 <= i < self.chunks@.len() && self.chunks@[i].0 == c;
                            if i < n {
                                assert(old(self).chunks@[i].0 == c);
                            }
                        }
                    }
                }
            },
        }
    }

    /// Evict `coord`: remove its mesh if resident; a no-op otherwise. No
    /// other chunk is disturbed.
    pub fn unload_chunk(&mut self, chunk_pos: (i32, i32))
        requires
            old(self).wf(),
        ensures
            final(self).wf(),
            final(self).chunk_size == old(self).chunk_size,
            !final(self).resident(chunk_pos),
            forall|c: (i32, i32)|
                final(self).resident(c) <==> old(self).resident(c) && c != chunk_pos,
            !old(self).resident(chunk_pos) ==> *final(self) == *old(self),
            old(self).resident(chunk_pos) ==> exists|i: int|
                0 <= i < old(self).chunks@.len() && old(self).chunks@[i].0 == chunk_pos
                    && final(self).chunks@ == old(self).chunks@.remove(i),
    {
        match self.find_index(chunk_pos) {
            Some(i) => {
                self.chunks.remove(i);
                proof {
                    let s = old(self).chunks@;
                    assert forall|c: (i32, i32)|
                        self.resident(c) <==> old(self).resident(c) && c != chunk_pos by {
                        if self.resident(c) {
                            let j = choose|j: int|
                                0 <= j < self.chunks@.len() && self.chunks@[j].0 == c;
                            if j < i {
                                assert(s[j].0 == c);
                            } else {
                                assert(s[j + 1].0 == c);
                            }
                        }
                        if old(self).resident(c) && c != chunk_pos {
                            let j = choose|j: int| 0 <= j < s.len() && s[j].0 == c;
                            if j < i {
                                assert(self.chunks@[j].0 == c);
                            } else {
                                assert(j != i);
                                assert(self.chunks@[j - 1].0 == c);
                            }
                        }
                    }
                }
            },
            None => {
            },
        }
    }
}

} // verus!
