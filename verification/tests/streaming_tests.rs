use chunkworld::world::World;
use chunkworld::world_update::{chunk_coord_of, update_world};

fn is_resident(w: &World, coord: (i32, i32)) -> bool {
    w.chunks.iter().any(|entry| entry.0 == coord)
}

#[test]
fn grid_cell_is_floored_division() {
    assert_eq!(chunk_coord_of(0, 8), 0);
    assert_eq!(chunk_coord_of(7, 8), 0);
    assert_eq!(chunk_coord_of(8, 8), 1);
    assert_eq!(chunk_coord_of(40, 8), 5);
    assert_eq!(chunk_coord_of(-1, 8), -1);
    assert_eq!(chunk_coord_of(-8, 8), -1);
    assert_eq!(chunk_coord_of(-9, 8), -2);
}

#[test]
fn reconcile_at_origin_loads_three_by_three() {
    let mut w = World::new(8);
    update_world(0, 0, 1, 2, &mut w);
    assert_eq!(w.chunks.len(), 9);
    for cx in -1..=1 {
        for cz in -1..=1 {
            assert!(is_resident(&w, (cx, cz)));
        }
    }
}

#[test]
fn reconcile_after_move_loads_around_new_cell_and_evicts_far_chunks() {
    let mut w = World::new(8);
    update_world(0, 0, 1, 2, &mut w);
    // The camera moves to (40, 0, 0): grid cell x = 40 / 8 = 5.
    update_world(40, 0, 1, 2, &mut w);
    assert_eq!(w.chunks.len(), 9);
    for cx in 4..=6 {
        for cz in -1..=1 {
            assert!(is_resident(&w, (cx, cz)));
        }
    }
    // Everything farther than the unload radius from cell 5 is gone.
    for entry in &w.chunks {
        assert!(entry.0 .0 >= 5 - 2);
    }
}

#[test]
fn chunks_inside_unload_radius_survive_a_move() {
    let mut w = World::new(8);
    update_world(0, 0, 1, 2, &mut w);
    // One cell to the right: the old column at x = -1 is at Chebyshev
    // distance 2 from the new cell (1, 0), inside the unload radius.
    update_world(8, 0, 1, 2, &mut w);
    assert_eq!(w.chunks.len(), 12);
    for cz in -1..=1 {
        assert!(is_resident(&w, (-1, cz)));
        assert!(is_resident(&w, (2, cz)));
    }
}

#[test]
fn unload_radius_below_load_radius_evicts_fresh_chunks() {
    // The caller-enforced configuration invariant is load <= unload; with an
    // unload radius of zero the eviction pass runs after the loads and strips
    // the freshly loaded ring again.
    let mut w = World::new(8);
    update_world(0, 0, 1, 0, &mut w);
    assert_eq!(w.chunks.len(), 1);
    assert!(is_resident(&w, (0, 0)));
}

#[test]
fn reconcile_far_from_origin_uses_floored_cell() {
    let mut w = World::new(8);
    update_world(-20, 13, 1, 2, &mut w);
    // floor(-20 / 8) = -3, floor(13 / 8) = 1.
    assert_eq!(w.chunks.len(), 9);
    for cx in -4..=-2 {
        for cz in 0..=2 {
            assert!(is_resident(&w, (cx, cz)));
        }
    }
}
