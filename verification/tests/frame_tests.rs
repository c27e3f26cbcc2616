use chunkworld::arena::BufferArena;
use chunkworld::frame::run_frame;
use chunkworld::world::{Chunk, World};
use chunkworld::vertex::Vertex;

#[test]
fn first_frame_at_origin_draws_nine_chunks() {
    let mut w = World::new(8);
    let geometry = run_frame(&mut w, 0, 0, 1, 2, true).unwrap();
    assert_eq!(w.chunks.len(), 9);
    // A chunk of edge 8 holds 8 * 8 * 24 vertices and 8 * 8 * 36 indices.
    assert_eq!(geometry.vertices.len(), 9 * 8 * 8 * 24);
    assert_eq!(geometry.indices.len(), 9 * 8 * 8 * 36);
}

#[test]
fn frame_without_reconcile_leaves_store_untouched() {
    let mut w = World::new(8);
    w.load_chunk((0, 0));
    let geometry = run_frame(&mut w, 999, 999, 1, 2, false).unwrap();
    assert_eq!(w.chunks.len(), 1);
    assert_eq!(w.chunks[0].0, (0, 0));
    assert_eq!(geometry.vertices.len(), 8 * 8 * 24);
}

#[test]
fn frame_overflow_fails_before_any_buffer_write() {
    let vertex = Vertex { pos_x: 0, pos_y: 0, pos_z: 0, tex_u: 0, tex_v: 0 };
    let chunk_a = Chunk { vertices: vec![vertex; 32768], indices: Vec::new() };
    let chunk_b = Chunk { vertices: vec![vertex; 32768], indices: Vec::new() };
    let mut w = World { chunks: vec![((0, 0), chunk_a), ((1, 0), chunk_b)], chunk_size: 8 };
    let mut arena = BufferArena::new(64, 64);
    let result = run_frame(&mut w, 0, 0, 1, 2, false);
    assert!(result.is_err());
    // The error came back before any geometry existed to encode, so the
    // arena was never synced: capacities and contents are untouched.
    assert_eq!(arena.vertex_region.capacity(), 64);
    assert_eq!(arena.index_region.capacity(), 64);
    assert!(arena.vertex_region.contents().is_empty());
    assert!(arena.index_region.contents().is_empty());
}

#[test]
fn moving_camera_reconciles_and_aggregates_new_neighbourhood() {
    let mut w = World::new(8);
    run_frame(&mut w, 0, 0, 1, 2, true).unwrap();
    let geometry = run_frame(&mut w, 40, 0, 1, 2, true).unwrap();
    assert_eq!(w.chunks.len(), 9);
    assert_eq!(geometry.vertices.len(), 9 * 8 * 8 * 24);
    for entry in &w.chunks {
        assert!(entry.0 .0 >= 3);
    }
}
