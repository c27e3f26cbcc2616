//! The buffer arena: the capacity-tracking owner of the two byte regions —
//! vertex bytes and index bytes — that back the aggregated frame geometry.
//! Each region holds the staging copy of the last content written plus its
//! allocated capacity. A write within capacity overwrites in place and the
//! capacity never changes; a write beyond capacity reallocates to exactly the
//! required size. Capacity never shrinks, so frame-to-frame size jitter never
//! causes reallocation thrashing.
//!
//! The caller that mirrors a region into device memory replaces its device
//! buffer when a write reports growth and overwrites it in place otherwise.

use vstd::prelude::*;

verus! {

/// One growable byte region: its staging content and its allocated capacity.
pub struct Region {
    data: Vec<u8>,
    capacity: usize,
}

impl Region {
    /// The content of the last write.
    pub closed spec fn bytes(self) -> Seq<u8> {
        self.data@
    }

    /// The allocated capacity, in bytes.
    pub closed spec fn cap(self) -> int {
        self.capacity as int
    }

    /// Region invariant: the content never exceeds the capacity.
    pub closed spec fn wf(self) -> bool {
        self.data@.len() <= self.capacity
    }

    /// An empty region with the given starting capacity.
    pub fn new(initial_capacity: usize) -> (r: Region)
        ensures
            r.wf(),
            r.cap() == initial_capacity,
            r.bytes() == Seq::<u8>::empty(),
    {
        Region { data: Vec::new(), capacity: initial_capacity }
    }

    /// The region's current capacity.
    pub fn capacity(&self) -> (c: usize)
        ensures
            c == self.cap(),
    {
        self.capacity
    }

    /// The region's current content.
    pub fn contents(&self) -> (r: &Vec<u8>)
        ensures
            r@ == self.bytes(),
    {
        &self.data
    }

    /// Reserve room for `required` bytes: grow to exactly `required` when it
    /// exceeds the capacity, change nothing otherwise. Capacity never
    /// shrinks.
    pub fn ensure_capacity(&mut self, required: usize) -> (grew: bool)
        requires
            old(self).wf(),
        ensures
            final(self).wf(),
            final(self).bytes() == old(self).bytes(),
            final(self).cap() >= old(self).cap(),
            grew == (required > old(self).cap()),
            grew ==> final(self).cap() == required,
            !grew ==> final(self).cap() == old(self).cap(),
    {
        if required > self.capacity {
            self.capacity = required;
            true
        } else {
            false
        }
    }

    /// Write `content` into the region, starting at offset 0. Within
    /// capacity this overwrites the existing storage and the capacity does
    /// not change; beyond capacity the region is reallocated to exactly the
    /// content's size. Either way the region afterwards holds the content
    /// byte for byte, and the capacity never shrinks.
    pub fn write(&mut self, content: &Vec<u8>) -> (grew: bool)
        requires
            old(self).wf(),
        ensures
            final(self).wf(),
            final(self).bytes() == content@,
            final(self).cap() >= old(self).cap(),
            grew == (content@.len() > old(self).cap()),
            grew ==> final(self).cap() == content@.len(),
            !grew ==> final(self).cap() == old(self).cap(),
    {
        let grew = self.ensure_capacity(content.len());
        let ghost cap_now: int = self.capacity as int;
        self.data.clear();
        let mut i: usize = 0;
        while i < content.len()
            invariant
                i <= content@.len(),
                self.data@ == content@.take(i as int),
                self.capacity as int == cap_now,
                content@.len() <= cap_now,
            decreases content@.len() - i,
        {
            self.data.push(content[i]);
            proof {
                assert(content@.take(i + 1) =~= content@.take(i as int).push(content@[i as int]));
            }
            i = i + 1;
        }
        proof {
            assert(content@.take(content@.len() as int) =~= content@);
        }
        grew
    }
}

/// The pair of regions that back one drawable frame: the vertex bytes and
/// the index bytes, each with its own capacity.
pub struct BufferArena {
    pub vertex_region: Region,
    pub index_region: Region,
}

impl BufferArena {
    /// Arena invariant: both regions are well formed.
    pub open spec fn wf(self) -> bool {
        self.vertex_region.wf() && self.index_region.wf()
    }

    /// A fresh arena with the given starting capacities.
    pub fn new(vertex_capacity: usize, index_capacity: usize) -> (a: BufferArena)
        ensures
            a.wf(),
            a.vertex_region.cap() == vertex_capacity,
            a.index_region.cap() == index_capacity,
            a.vertex_region.bytes() == Seq::<u8>::empty(),
            a.index_region.bytes() == Seq::<u8>::empty(),
    {
        BufferArena {
            vertex_region: Region::new(vertex_capacity),
            index_region: Region::new(index_capacity),
        }
    }

    /// Write one frame's aggregated geometry, as bytes, into the two
    /// regions; called once per frame after aggregation. Returns whether
    /// each region had to grow, so the caller knows which device buffers to
    /// replace rather than overwrite.
    pub fn sync(&mut self, vertex_bytes: &Vec<u8>, index_bytes: &Vec<u8>) -> (grew: (bool, bool))
        requires
            old(self).wf(),
        ensures
            final(self).wf(),
            final(self).vertex_region.bytes() == vertex_bytes@,
            final(self).index_region.bytes() == index_bytes@,
            final(self).vertex_region.cap() >= old(self).vertex_region.cap(),
            final(self).index_region.cap() >= old(self).index_region.cap(),
            grew.0 == (vertex_bytes@.len() > old(self).vertex_region.cap()),
            grew.0 ==> final(self).vertex_region.cap() == vertex_bytes@.len(),
            !grew.0 ==> final(self).vertex_region.cap() == old(self).vertex_region.cap(),
            grew.1 == (index_bytes@.len() > old(self).index_region.cap()),
            grew.1 ==> final(self).index_region.cap() == index_bytes@.len(),
            !grew.1 ==> final(self).index_region.cap() == old(self).index_region.cap(),
    {
        let vertex_grew = self.vertex_region.write(vertex_bytes);
        let index_grew = self.index_region.write(index_bytes);
        (vertex_grew, index_grew)
    }
}

} // verus!
