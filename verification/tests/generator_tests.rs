use chunkworld::chunk::{generate_chunk_indices, generate_chunk_vertices};
use chunkworld::vertex::{cube_indices, cube_vertices, Vertex, CUBE_INDEX_COUNT, CUBE_VERTEX_COUNT};

#[test]
fn cube_template_counts() {
    assert_eq!(cube_vertices().len(), CUBE_VERTEX_COUNT);
    assert_eq!(cube_vertices().len(), 24);
    assert_eq!(cube_indices().len(), CUBE_INDEX_COUNT);
    assert_eq!(cube_indices().len(), 36);
}

#[test]
fn cube_template_corner_values() {
    let v = cube_vertices();
    assert_eq!(
        v[0],
        Vertex { pos_x: -1, pos_y: -1, pos_z: 1, tex_u: 0, tex_v: 0 }
    );
    assert_eq!(
        v[6],
        Vertex { pos_x: 1, pos_y: 1, pos_z: -1, tex_u: 1, tex_v: 1 }
    );
    assert_eq!(
        v[23],
        Vertex { pos_x: -1, pos_y: 1, pos_z: -1, tex_u: 0, tex_v: 0 }
    );
    let i = cube_indices();
    assert_eq!(&i[0..6], &[0, 1, 2, 2, 3, 0]);
    assert_eq!(&i[30..36], &[20, 21, 22, 22, 23, 20]);
}

#[test]
fn cube_indices_reference_template_vertices() {
    for i in cube_indices() {
        assert!((i as usize) < CUBE_VERTEX_COUNT);
    }
}

#[test]
fn single_cell_chunk_matches_template() {
    assert_eq!(generate_chunk_vertices((0, 0), 1), cube_vertices());
    assert_eq!(generate_chunk_indices(1), cube_indices());
}

#[test]
fn chunk_vertices_are_translated_per_cell() {
    let size = 2usize;
    let v = generate_chunk_vertices((2, 3), size);
    assert_eq!(v.len(), size * size * 24);
    let t = cube_vertices();
    for x in 0..size {
        for z in 0..size {
            for k in 0..24 {
                let idx = (x * size + z) * 24 + k;
                assert_eq!(v[idx].pos_x, t[k].pos_x + x as i64 + 2 * size as i64);
                assert_eq!(v[idx].pos_y, t[k].pos_y);
                assert_eq!(v[idx].pos_z, t[k].pos_z + z as i64 + 3 * size as i64);
                assert_eq!(v[idx].tex_u, t[k].tex_u);
                assert_eq!(v[idx].tex_v, t[k].tex_v);
            }
        }
    }
}

#[test]
fn negative_chunk_coordinates_translate_backwards() {
    let v = generate_chunk_vertices((-1, -1), 8);
    // Cell (0, 0) of chunk (-1, -1): base position (-8, 0, -8).
    assert_eq!(v[0].pos_x, -1 - 8);
    assert_eq!(v[0].pos_y, -1);
    assert_eq!(v[0].pos_z, 1 - 8);
}

#[test]
fn chunk_indices_rebased_by_24_per_cell() {
    let size = 3usize;
    let ind = generate_chunk_indices(size);
    assert_eq!(ind.len(), size * size * 36);
    let t = cube_indices();
    for cell in 0..size * size {
        for k in 0..36 {
            assert_eq!(ind[cell * 36 + k], t[k] + 24 * cell as u16);
        }
    }
}

#[test]
fn chunk_indices_stay_within_chunk_vertex_count() {
    let size = 5usize;
    let vertex_count = generate_chunk_vertices((0, 0), size).len();
    assert_eq!(vertex_count, size * size * 24);
    for i in generate_chunk_indices(size) {
        assert!((i as usize) < vertex_count);
    }
}

#[test]
fn zero_edge_chunk_is_empty() {
    assert!(generate_chunk_vertices((5, -7), 0).is_empty());
    assert!(generate_chunk_indices(0).is_empty());
}
