use chunkworld::chunk::{generate_chunk_indices, generate_chunk_vertices};
use chunkworld::world::World;

fn is_resident(w: &World, coord: (i32, i32)) -> bool {
    w.chunks.iter().any(|entry| entry.0 == coord)
}

#[test]
fn new_store_is_empty() {
    let w = World::new(8);
    assert_eq!(w.chunk_size, 8);
    assert_eq!(w.chunks.len(), 0);
}

#[test]
fn load_inserts_generated_mesh() {
    let mut w = World::new(4);
    w.load_chunk((2, -3));
    assert_eq!(w.chunks.len(), 1);
    assert_eq!(w.chunks[0].0, (2, -3));
    assert_eq!(w.chunks[0].1.vertices, generate_chunk_vertices((2, -3), 4));
    assert_eq!(w.chunks[0].1.indices, generate_chunk_indices(4));
}

#[test]
fn load_twice_is_byte_identical_to_load_once() {
    let mut once = World::new(4);
    once.load_chunk((1, 2));
    let mut twice = World::new(4);
    twice.load_chunk((1, 2));
    twice.load_chunk((1, 2));
    assert_eq!(once, twice);
}

#[test]
fn load_of_resident_coordinate_changes_nothing() {
    let mut w = World::new(4);
    w.load_chunk((0, 0));
    w.load_chunk((5, 5));
    let mut again = World::new(4);
    again.load_chunk((0, 0));
    again.load_chunk((5, 5));
    again.load_chunk((0, 0));
    again.load_chunk((5, 5));
    assert_eq!(w, again);
    assert_eq!(again.chunks.len(), 2);
}

#[test]
fn unload_removes_only_the_target() {
    let mut w = World::new(2);
    w.load_chunk((0, 0));
    w.load_chunk((1, 0));
    w.load_chunk((2, 0));
    w.unload_chunk((1, 0));
    assert_eq!(w.chunks.len(), 2);
    assert!(!is_resident(&w, (1, 0)));
    assert!(is_resident(&w, (0, 0)));
    assert!(is_resident(&w, (2, 0)));
    for entry in &w.chunks {
        assert_eq!(entry.1.vertices, generate_chunk_vertices(entry.0, 2));
        assert_eq!(entry.1.indices, generate_chunk_indices(2));
    }
}

#[test]
fn unload_of_absent_coordinate_is_a_noop() {
    let mut w = World::new(2);
    w.load_chunk((0, 0));
    let mut other = World::new(2);
    other.load_chunk((0, 0));
    other.unload_chunk((9, 9));
    assert_eq!(w, other);
}
