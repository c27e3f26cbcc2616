//! The streaming policy: derive the camera's current grid cell from its eye
//! position, load every chunk inside the square load neighbourhood around it,
//! then evict every resident chunk whose Chebyshev distance from the current
//! cell exceeds the unload radius. Loads always run before the eviction pass,
//! so a chunk inside both radii is never evicted by a stale pass.
//!
//! The eye position enters as its integer floor per axis; since the chunk
//! edge is a positive integer, flooring first leaves the derived cell
//! unchanged.

use vstd::arithmetic::div_mod::{
    lemma_div_is_ordered, lemma_fundamental_div_mod, lemma_fundamental_div_mod_converse,
};
use vstd::prelude::*;

use crate::world::World;

verus! {

/// `c` lies within Chebyshev distance `radius` of the cell `(cur_x, cur_z)`.
pub open spec fn within_chebyshev(c: (i32, i32), cur_x: int, cur_z: int, radius: int) -> bool {
    &&& -radius <= c.0 - cur_x <= radius
    &&& -radius <= c.1 - cur_z <= radius
}

/// Whether `c` is resident after a reconciliation around `(cur_x, cur_z)`,
/// given whether it was resident before: it must lie inside the unload
/// radius, and either lie inside the load radius or have been resident
/// already.
pub open spec fn reconciled_resident(
    c: (i32, i32),
    cur_x: int,
    cur_z: int,
    load_radius: int,
    unload_radius: int,
    was_resident: bool,
) -> bool {
    &&& within_chebyshev(c, cur_x, cur_z, unload_radius)
    &&& (within_chebyshev(c, cur_x, cur_z, load_radius) || was_resident)
}

/// The streaming policy's guarantee, when the unload radius is at least the
/// load radius: after reconciliation every coordinate within the load radius
/// of the current cell is resident, and every coordinate farther than the
/// unload radius is not.
pub proof fn lemma_reconcile_bounds(
    c: (i32, i32),
    cur_x: int,
    cur_z: int,
    load_radius: int,
    unload_radius: int,
    was_resident: bool,
)
    requires
        load_radius <= unload_radius,
    ensures
        within_chebyshev(c, cur_x, cur_z, load_radius) ==> reconciled_resident(
            c,
            cur_x,
            cur_z,
            load_radius,
            unload_radius,
            was_resident,
        ),
        !within_chebyshev(c, cur_x, cur_z, unload_radius) ==> !reconciled_resident(
            c,
            cur_x,
            cur_z,
            load_radius,
            unload_radius,
            was_resident,
        ),
{
}

/// The grid cell that contains the 1-dimensional position `eye`, for a chunk
/// edge of `chunk_size`: the floor of `eye / chunk_size`. `eye` is the
/// integer floor of the camera's coordinate on that axis.
///
/// Relies on spec division being Euclidean: for a positive divisor the
/// Euclidean quotient is the floored quotient.
pub fn chunk_coord_of(eye: i64, chunk_size: usize) -> (c: i32)
    requires
        1 <= chunk_size,
        -2147483648 * (chunk_size as int) <= eye as int,
        (eye as int) < 2147483648 * (chunk_size as int),
    ensures
        c as int == (eye as int) / (chunk_size as int),
{
    let ghost se: int = chunk_size as int;
    proof {
        // The quotient fits an i32.
        lemma_fundamental_div_mod_converse(-2147483648 * se, se, -2147483648, 0);
        lemma_div_is_ordered(-2147483648 * se, eye as int, se);
        assert(2147483648 * se - 1 == 2147483647 * se + (se - 1)) by (nonlinear_arith);
        lemma_fundamental_div_mod_converse(2147483648 * se - 1, se, 2147483647, se - 1);
        lemma_div_is_ordered(eye as int, 2147483648 * se - 1, se);
    }
    if eye >= 0 {
        let q: u64 = (eye as u64) / (chunk_size as u64);
        q as i32
    } else {
        let m: u64 = (-(eye + 1)) as u64;
        let q0: u64 = m / (chunk_size as u64);
        proof {
            let q0i = (m as int) / se;
            lemma_fundamental_div_mod(m as int, se);
            assert(eye as int == (-q0i - 1) * se + (se - 1 - ((m as int) % se)))
                by (nonlinear_arith)
                requires
                    m as int == se * q0i + ((m as int) % se),
                    eye as int == -(m as int) - 1,
            ;
            lemma_fundamental_div_mod_converse(
                eye as int,
                se,
                -q0i - 1,
                se - 1 - ((m as int) % se),
            );
        }
        let c64: i64 = -(q0 as i64) - 1;
        c64 as i32
    }
}

/// Load every chunk of the square neighbourhood of radius `load_radius`
/// around `(cur_x, cur_z)`; nothing is evicted.
fn load_square(world: &mut World, cur_x: i32, cur_z: i32, load_radius: u32)
    requires
        old(world).wf(),
        load_radius <= 1000000,
        cur_x as int - load_radius as int >= -2147483648,
        cur_x as int + load_radius as int <= 2147483647,
        cur_z as int - load_radius as int >= -2147483648,
        cur_z as int + load_radius as int <= 2147483647,
    ensures
        final(world).wf(),
        final(world).chunk_size == old(world).chunk_size,
        forall|c: (i32, i32)|
            final(world).resident(c) <==> old(world).resident(c) || within_chebyshev(
                c,
                cur_x as int,
                cur_z as int,
                load_radius as int,
            ),
{
    let side: u64 = 2 * (load_radius as u64) + 1;
    let mut dx: u64 = 0;
    while dx < side
        invariant
            world.wf(),
            world.chunk_size == old(world).chunk_size,
            dx <= side,
            side == 2 * (load_radius as u64) + 1,
            load_radius <= 1000000,
            cur_x as int - load_radius as int >= -2147483648,
            cur_x as int + load_radius as int <= 2147483647,
            cur_z as int - load_radius as int >= -2147483648,
            cur_z as int + load_radius as int <= 2147483647,
            forall|c: (i32, i32)|
                world.resident(c) <==> old(world).resident(c) || {
                    &&& cur_x - load_radius <= c.0 < cur_x - load_radius + dx
                    &&& -(load_radius as int) <= c.1 - cur_z <= load_radius as int
                },
        decreases side - dx,
    {
        let col: i32 = ((cur_x as i64) - (load_radius as i64) + (dx as i64)) as i32;
        let mut dz: u64 = 0;
        while dz < side
            invariant
                world.wf(),
                world.chunk_size == old(world).chunk_size,
                dx < side,
                dz <= side,
                side == 2 * (load_radius as u64) + 1,
                load_radius <= 1000000,
                cur_x as int - load_radius as int >= -2147483648,
                cur_x as int + load_radius as int <= 2147483647,
                cur_z as int - load_radius as int >= -2147483648,
                cur_z as int + load_radius as int <= 2147483647,
                col as int == cur_x as int - load_radius as int + dx as int,
                forall|c: (i32, i32)|
                    world.resident(c) <==> old(world).resident(c) || {
                        &&& cur_x - load_radius <= c.0 < cur_x - load_radius + dx
                        &&& -(load_radius as int) <= c.1 - cur_z <= load_radius as int
                    } || {
                        &&& c.0 == col
                        &&& cur_z - load_radius <= c.1 < cur_z - load_radius + dz
                    },
            decreases side - dz,
        {
            let row: i32 = ((cur_z as i64) - (load_radius as i64) + (dz as i64)) as i32;
            world.load_chunk((col, row));
            dz = dz + 1;
        }
        dx = dx + 1;
    }
}

/// Evict every resident chunk farther than `radius` (Chebyshev) from
/// `(cur_x, cur_z)`: collect the out-of-range coordinates, then unload each.
/// Every chunk within the radius stays, with its mesh untouched.
fn retain_within(world: &mut World, cur_x: i32, cur_z: i32, radius: u32)
    requires
        old(world).wf(),
    ensures
        final(world).wf(),
        final(world).chunk_size == old(world).chunk_size,
        forall|c: (i32, i32)|
            final(world).resident(c) <==> old(world).resident(c) && within_chebyshev(
                c,
                cur_x as int,
                cur_z as int,
                radius as int,
            ),
{
    let ghost cxi: int = cur_x as int;
    let ghost czi: int = cur_z as int;
    let ghost ri: int = radius as int;
    let mut to_remove: Vec<(i32, i32)> = Vec::new();
    let mut i: usize = 0;
    while i < world.chunks.len()
        invariant
            i <= world.chunks@.len(),
            cxi == cur_x as int,
            czi == cur_z as int,
            ri == radius as int,
            forall|k: int|
                0 <= k < to_remove@.len() ==> !within_chebyshev(
                    #[trigger] to_remove@[k],
                    cxi,
                    czi,
                    ri,
                ),
            forall|j: int|
                0 <= j < i ==> within_chebyshev((#[trigger] world.chunks@[j]).0, cxi, czi, ri)
                    || to_remove@.contains(world.chunks@[j].0),
        decreases world.chunks@.len() - i,
    {
        let coord = world.chunks[i].0;
        let dxv: i64 = (coord.0 as i64) - (cur_x as i64);
        let dzv: i64 = (coord.1 as i64) - (cur_z as i64);
        let rr: i64 = radius as i64;
        let ghost pre = to_remove@;
        let outside = dxv < -rr || dxv > rr || dzv < -rr || dzv > rr;
        if outside {
            to_remove.push(coord);
        }
        proof {
            if outside {
                assert(to_remove@ == pre.push(coord));
                assert(!within_chebyshev(coord, cxi, czi, ri));
                assert forall|k: int| 0 <= k < to_remove@.len() implies !within_chebyshev(
                    #[trigger] to_remove@[k],
                    cxi,
                    czi,
                    ri,
                ) by {
                    if k < pre.len() {
                        assert(to_remove@[k] == pre[k]);
                    } else {
                        assert(to_remove@[k] == coord);
                    }
                }
            } else {
                assert(within_chebyshev(coord, cxi, czi, ri));
            }
            assert forall|j: int|
                0 <= j < i + 1 implies within_chebyshev(
                (#[trigger] world.chunks@[j]).0,
                cxi,
                czi,
                ri,
            ) || to_remove@.contains(world.chunks@[j].0) by {
                if j < i {
                    if !within_chebyshev(world.chunks@[j].0, cxi, czi, ri) {
                        let idx = choose|idx: int|
                            0 <= idx < pre.len() && #[trigger] pre[idx] == world.chunks@[j].0;
                        assert(to_remove@[idx] == world.chunks@[j].0);
                    }
                } else {
                    if outside {
                        assert(to_remove@[pre.len() as int] == coord);
                    }
                }
            }
        }
        i = i + 1;
    }
    let ghost marked = to_remove@;
    proof {
        // Every resident coordinate outside the radius was marked, and only
        // out-of-range coordinates were marked.
        assert forall|c: (i32, i32)|
            old(world).resident(c) && !within_chebyshev(c, cxi, czi, ri) implies marked.contains(
            c,
        ) by {
            let j = choose|j: int|
                0 <= j < world.chunks@.len() && (#[trigger] world.chunks@[j]).0 == c;
        }
    }
    let mut k: usize = 0;
    while k < to_remove.len()
        invariant
            k <= to_remove@.len(),
            to_remove@ == marked,
            world.wf(),
            world.chunk_size == old(world).chunk_size,
            forall|c: (i32, i32)|
                world.resident(c) <==> old(world).resident(c) && !marked.take(k as int).contains(
                    c,
                ),
        decreases to_remove@.len() - k,
    {
        let target = to_remove[k];
        world.unload_chunk(target);
        proof {
            assert(marked.take(k + 1) =~= marked.take(k as int).push(marked[k as int]));
            assert forall|c: (i32, i32)|
                world.resident(c) <==> old(world).resident(c) && !marked.take(k + 1).contains(
                    c,
                ) by {
                if marked.take(k + 1).contains(c) {
                    let idx = choose|idx: int|
                        0 <= idx < marked.take(k + 1).len() && #[trigger] marked.take(k + 1)[idx]
                            == c;
                    if idx < k {
                        assert(marked.take(k as int)[idx] == c);
                        assert(marked.take(k as int).contains(c));
                    } else {
                        assert(c == target);
                    }
                }
                assert(marked.take(k + 1)[k as int] == target);
                assert(marked.take(k + 1).contains(target));
                if marked.take(k as int).contains(c) {
                    let idx = choose|idx: int|
                        0 <= idx < marked.take(k as int).len() && #[trigger] marked.take(
                            k as int,
                        )[idx] == c;
                    assert(marked.take(k + 1)[idx] == c);
                    assert(marked.take(k + 1).contains(c));
                }
            }
        }
        k = k + 1;
    }
    proof {
        assert(marked.take(marked.len() as int) =~= marked);
        assert forall|c: (i32, i32)|
            world.resident(c) <==> old(world).resident(c) && within_chebyshev(
                c,
                cxi,
                czi,
                ri,
            ) by {
            if old(world).resident(c) {
                if within_chebyshev(c, cxi, czi, ri) {
                    if marked.contains(c) {
                        let idx = choose|idx: int|
                            0 <= idx < marked.len() && #[trigger] marked[idx] == c;
                        assert(!within_chebyshev(marked[idx], cxi, czi, ri));
                    }
                } else {
                    assert(marked.contains(c));
                }
            }
        }
    }
}

/// Reconcile the store with the camera: load every chunk within
/// `load_radius` (Chebyshev) of the cell containing the eye, then evict
/// every resident chunk farther than `unload_radius` from it. `eye_x` and
/// `eye_z` are the integer floors of the camera eye's x and z coordinates.
///
/// The two radii are independent configuration; a caller that wants loaded
/// chunks to survive the eviction pass must keep
/// `load_radius <= unload_radius`.
pub fn update_world(
    eye_x: i64,
    eye_z: i64,
    load_radius: u32,
    unload_radius: u32,
    world: &mut World,
)
    requires
        old(world).wf(),
        1 <= old(world).chunk_size,
        load_radius <= 1000000,
        unload_radius <= 1000000,
        (-2147483648 + load_radius) * (old(world).chunk_size as int) <= eye_x as int,
        (eye_x as int) < (2147483648 - load_radius) * (old(world).chunk_size as int),
        (-2147483648 + load_radius) * (old(world).chunk_size as int) <= eye_z as int,
        (eye_z as int) < (2147483648 - load_radius) * (old(world).chunk_size as int),
    ensures
        final(world).wf(),
        final(world).chunk_size == old(world).chunk_size,
        forall|c: (i32, i32)|
            final(world).resident(c) <==> reconciled_resident(
                c,
                (eye_x as int) / (old(world).chunk_size as int),
                (eye_z as int) / (old(world).chunk_size as int),
                load_radius as int,
                unload_radius as int,
                old(world).resident(c),
            ),
{
    let size = world.chunk_size;
    let ghost se: int = size as int;
    let ghost rl: int = load_radius as int;
    proof {
        // Strengthen the eye bounds to the plain form chunk_coord_of needs.
        assert((-2147483648) * se <= (-2147483648 + rl) * se && (2147483648 - rl) * se
            <= 2147483648 * se) by (nonlinear_arith)
            requires
                se >= 1,
                0 <= rl <= 1000000,
        ;
    }
    let cur_x: i32 = chunk_coord_of(eye_x, size);
    let cur_z: i32 = chunk_coord_of(eye_z, size);
    proof {
        // The whole load neighbourhood fits in i32 coordinates.
        lemma_fundamental_div_mod_converse((-2147483648 + rl) * se, se, -2147483648 + rl, 0);
        lemma_div_is_ordered((-2147483648 + rl) * se, eye_x as int, se);
        lemma_div_is_ordered((-2147483648 + rl) * se, eye_z as int, se);
        assert((2147483648 - rl) * se - 1 == (2147483647 - rl) * se + (se - 1))
            by (nonlinear_arith);
        lemma_fundamental_div_mod_converse((2147483648 - rl) * se - 1, se, 2147483647 - rl, se - 1);
        lemma_div_is_ordered(eye_x as int, (2147483648 - rl) * se - 1, se);
        lemma_div_is_ordered(eye_z as int, (2147483648 - rl) * se - 1, se);
    }
    load_square(world, cur_x, cur_z, load_radius);
    retain_within(world, cur_x, cur_z, unload_radius);
}

} // verus!
