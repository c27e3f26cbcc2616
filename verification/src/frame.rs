//! The frame orchestrator's simulation step: once per displayed frame,
//! reconcile the chunk store with the camera when the caller decided the
//! camera moved far enough, then aggregate the resident chunks into the
//! frame's drawable geometry. The caller encodes the geometry into bytes,
//! syncs the buffer arena with it, and submits one draw call over the whole
//! index range; on an aggregation error nothing is handed out, so no buffer
//! is written.

use vstd::prelude::*;

use crate::aggregate::{
    aggregate, aggregated_indices, aggregated_vertices, total_vertex_count, AggregateError,
};
use crate::vertex::Vertex;
use crate::world::World;
use crate::world_update::{reconciled_resident, update_world};

verus! {

/// One frame's aggregated geometry: the vertex stream and the rebased index
/// stream; the draw call covers the full index range.
pub struct FrameGeometry {
    pub vertices: Vec<Vertex>,
    pub indices: Vec<u16>,
}

/// One simulation step of the frame loop. When `reconcile` is set — the
/// camera moved past the movement threshold — the store is reconciled around
/// the camera's current cell first; aggregation then runs over the resident
/// chunks. Fails exactly when the resident vertex count no longer fits the
/// 16-bit index width, leaving the reconciled store in place.
pub fn run_frame(
    world: &mut World,
    eye_x: i64,
    eye_z: i64,
    load_radius: u32,
    unload_radius: u32,
    reconcile: bool,
) -> (r: Result<FrameGeometry, AggregateError>)
    requires
        old(world).wf(),
        1 <= old(world).chunk_size,
        reconcile ==> {
            &&& load_radius <= 1000000
            &&& unload_radius <= 1000000
            &&& (-2147483648 + load_radius) * (old(world).chunk_size as int) <= eye_x as int
            &&& (eye_x as int) < (2147483648 - load_radius) * (old(world).chunk_size as int)
            &&& (-2147483648 + load_radius) * (old(world).chunk_size as int) <= eye_z as int
            &&& (eye_z as int) < (2147483648 - load_radius) * (old(world).chunk_size as int)
        },
    ensures
        final(world).wf(),
        final(world).chunk_size == old(world).chunk_size,
        !reconcile ==> *final(world) == *old(world),
        reconcile ==> forall|c: (i32, i32)|
            final(world).resident(c) <==> reconciled_resident(
                c,
                (eye_x as int) / (old(world).chunk_size as int),
                (eye_z as int) / (old(world).chunk_size as int),
                load_radius as int,
                unload_radius as int,
                old(world).resident(c),
            ),
        match r {
            Ok(geometry) => {
                &&& total_vertex_count(final(world).chunks@) <= 65535
                &&& geometry.vertices@ == aggregated_vertices(final(world).chunks@)
                &&& geometry.indices@ == aggregated_indices(final(world).chunks@)
            },
            Err(e) => {
                &&& e == AggregateError::VertexCountOverflow
                &&& total_vertex_count(final(world).chunks@) >= 65536
            },
        },
{
    if reconcile {
        update_world(eye_x, eye_z, load_radius, unload_radius, world);
    }
    proof {
        world.lemma_wf_implies_chunks_ok();
    }
    match aggregate(world) {
        Ok(geometry) => Ok(FrameGeometry { vertices: geometry.0, indices: geometry.1 }),
        Err(e) => Err(e),
    }
}

} // verus!
