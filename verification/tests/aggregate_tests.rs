use chunkworld::aggregate::{aggregate, AggregateError};
use chunkworld::vertex::{cube_indices, Vertex};
use chunkworld::world::{Chunk, World};

fn dummy_vertex() -> Vertex {
    Vertex { pos_x: 0, pos_y: 0, pos_z: 0, tex_u: 0, tex_v: 0 }
}

fn store_with_vertex_counts(counts: &[usize]) -> World {
    let mut chunks = Vec::new();
    for (i, n) in counts.iter().enumerate() {
        let chunk = Chunk { vertices: vec![dummy_vertex(); *n], indices: Vec::new() };
        chunks.push(((i as i32, 0i32), chunk));
    }
    World { chunks, chunk_size: 8 }
}

#[test]
fn aggregate_of_empty_store_is_empty() {
    let w = World::new(8);
    let (vertices, indices) = aggregate(&w).unwrap();
    assert!(vertices.is_empty());
    assert!(indices.is_empty());
}

#[test]
fn aggregate_rebases_second_chunk_by_first_vertex_count() {
    let mut w = World::new(1);
    w.load_chunk((0, 0));
    w.load_chunk((1, 0));
    let (vertices, indices) = aggregate(&w).unwrap();
    assert_eq!(vertices.len(), 48);
    assert_eq!(indices.len(), 72);
    let t = cube_indices();
    for j in 0..36 {
        // The first chunk's indices are untouched; the second chunk's are
        // each shifted by the first chunk's 24 vertices.
        assert_eq!(indices[j], t[j]);
        assert_eq!(indices[36 + j], t[j] + 24);
    }
}

#[test]
fn aggregate_total_is_the_same_in_either_order() {
    let mut ab = World::new(1);
    ab.load_chunk((0, 0));
    ab.load_chunk((1, 0));
    let mut ba = World::new(1);
    ba.load_chunk((1, 0));
    ba.load_chunk((0, 0));
    let (v1, i1) = aggregate(&ab).unwrap();
    let (v2, i2) = aggregate(&ba).unwrap();
    assert_eq!(v1.len(), v2.len());
    assert_eq!(i1.len(), i2.len());
    // Whichever chunk is stored second gets the other's vertex count as its
    // index offset.
    let t = cube_indices();
    for j in 0..36 {
        assert_eq!(i2[j], t[j]);
        assert_eq!(i2[36 + j], t[j] + 24);
    }
}

#[test]
fn aggregate_concatenates_vertices_in_store_order() {
    let mut w = World::new(1);
    w.load_chunk((3, 0));
    w.load_chunk((0, 0));
    let (vertices, _) = aggregate(&w).unwrap();
    assert_eq!(&vertices[0..24], &w.chunks[0].1.vertices[..]);
    assert_eq!(&vertices[24..48], &w.chunks[1].1.vertices[..]);
}

#[test]
fn vertex_count_just_below_the_index_width_is_accepted() {
    let w = store_with_vertex_counts(&[32767, 32768]);
    let (vertices, indices) = aggregate(&w).unwrap();
    assert_eq!(vertices.len(), 65535);
    assert!(indices.is_empty());
}

#[test]
fn vertex_count_reaching_65536_is_flagged_as_error() {
    let w = store_with_vertex_counts(&[32768, 32768]);
    assert_eq!(aggregate(&w).unwrap_err(), AggregateError::VertexCountOverflow);
}

#[test]
fn vertex_count_above_the_boundary_is_flagged_as_error() {
    let mut w = World::new(52);
    w.load_chunk((0, 0));
    w.load_chunk((1, 0));
    // Two full chunks of edge 52 hold 2 * 52 * 52 * 24 = 129792 vertices.
    assert!(aggregate(&w).is_err());
}
