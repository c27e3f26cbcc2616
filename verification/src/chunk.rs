//! The chunk mesh generator: a pure function from a grid coordinate and an
//! edge length to the vertex and index lists of one chunk, an `edge x edge`
//! block of cube cells.
//!
//! A chunk of edge `n` has `n * n` cells; each cell contributes the 24
//! template vertices, translated to the cell's position in the world, and the
//! 36 template indices, offset by the number of vertices of the cells before
//! it. Indices are 16-bit, so a chunk may hold at most 65536 vertices; that
//! bound is the only precondition.

use vstd::arithmetic::div_mod::lemma_fundamental_div_mod_converse;
use vstd::prelude::*;

use crate::vertex::{cube_index_template, cube_vertex_template, cube_vertices, Vertex};
use crate::vertex::{CUBE_INDEX_COUNT, CUBE_VERTEX_COUNT};

verus! {

/// A chunk edge length is valid when a full chunk's vertex count still fits
/// the 16-bit index width.
pub open spec fn valid_chunk_size(size: int) -> bool {
    0 <= size && size * size * (CUBE_VERTEX_COUNT as int) <= 65536
}

/// A valid edge length is at most 52, since 53 * 53 * 24 already exceeds the
/// index width.
pub proof fn lemma_valid_chunk_size_bound(size: int)
    requires
        valid_chunk_size(size),
    ensures
        size <= 52,
{
    assert(size <= 52) by (nonlinear_arith)
        requires
            0 <= size,
            size * size * 24 <= 65536,
    ;
}

/// The vertex a generated chunk holds at position `i`: the template vertex
/// `i % 24`, translated to cell `i / 24` of chunk `(cx, cz)`. Cells are laid
/// out row by row: cell `c` sits at local `(c / size, c % size)`.
pub open spec fn chunk_vertex_at(cx: int, cz: int, size: int, i: int) -> Vertex {
    let cell = i / (CUBE_VERTEX_COUNT as int);
    let k = i % (CUBE_VERTEX_COUNT as int);
    let x = cell / size;
    let z = cell % size;
    let t = cube_vertex_template()[k];
    Vertex {
        pos_x: (t.pos_x + x + cx * size) as i64,
        pos_y: t.pos_y,
        pos_z: (t.pos_z + z + cz * size) as i64,
        tex_u: t.tex_u,
        tex_v: t.tex_v,
    }
}

/// The full vertex list of the chunk at `(cx, cz)` with edge length `size`.
pub open spec fn chunk_vertices_spec(cx: int, cz: int, size: int) -> Seq<Vertex> {
    Seq::new((size * size * (CUBE_VERTEX_COUNT as int)) as nat, |i: int| chunk_vertex_at(cx, cz, size, i))
}

/// The full index list of a chunk with edge length `size`: for each cell, the
/// 36 template indices rebased by the 24 vertices of every earlier cell. The
/// values are local to the chunk, in `[0, size * size * 24)`.
pub open spec fn chunk_indices_spec(size: int) -> Seq<u16> {
    Seq::new(
        (size * size * (CUBE_INDEX_COUNT as int)) as nat,
        |i: int|
            (cube_index_template()[i % (CUBE_INDEX_COUNT as int)] + (CUBE_VERTEX_COUNT as int) * (
            i / (CUBE_INDEX_COUNT as int))) as u16,
    )
}

/// Every index of a generated chunk references one of its own vertices.
pub proof fn lemma_chunk_indices_valid(size: int)
    requires
        valid_chunk_size(size),
    ensures
        forall|i: int|
            0 <= i < chunk_indices_spec(size).len() ==> (chunk_indices_spec(size)[i] as int)
                < chunk_vertices_spec(0, 0, size).len(),
        chunk_vertices_spec(0, 0, size).len() == size * size * (CUBE_VERTEX_COUNT as int),
{
    assert forall|i: int| 0 <= i < chunk_indices_spec(size).len() implies (chunk_indices_spec(
        size,
    )[i] as int) < size * size * (CUBE_VERTEX_COUNT as int) by {
        let cell = i / (CUBE_INDEX_COUNT as int);
        let k = i % (CUBE_INDEX_COUNT as int);
        assert(0 <= k < 36 && 0 <= cell && i == cell * 36 + k) by {
            vstd::arithmetic::div_mod::lemma_fundamental_div_mod(i, 36);
            vstd::arithmetic::div_mod::lemma_mod_bound(i, 36);
            vstd::arithmetic::div_mod::lemma_div_pos_is_pos(i, 36);
        }
        assert(cube_index_template()[k] < 24);
        assert(cell < size * size) by (nonlinear_arith)
            requires
                i == cell * 36 + k,
                0 <= k < 36,
                i < size * size * 36,
        ;
        assert(24 * cell + 24 <= size * size * 24) by (nonlinear_arith)
            requires
                cell < size * size,
        ;
    }
}

/// Generate the vertex list of the chunk at `chunk_pos` with edge length
/// `chunk_size`: for every cell, the cube template translated to that cell's
/// position in the world. Pure and deterministic.
pub fn generate_chunk_vertices(chunk_pos: (i32, i32), chunk_size: usize) -> (r: Vec<Vertex>)
    requires
        valid_chunk_size(chunk_size as int),
    ensures
        r@ == chunk_vertices_spec(chunk_pos.0 as int, chunk_pos.1 as int, chunk_size as int),
{
    let cx = chunk_pos.0;
    let cz = chunk_pos.1;
    let template = cube_vertices();
    proof {
        lemma_valid_chunk_size_bound(chunk_size as int);
    }
    let mut out: Vec<Vertex> = Vec::new();
    let mut x: usize = 0;
    while x < chunk_size
        invariant
            x <= chunk_size,
            valid_chunk_size(chunk_size as int),
            chunk_size <= 52,
            template@ == cube_vertex_template(),
            out@.len() == x * chunk_size * 24,
            forall|i: int|
                0 <= i < out@.len() ==> out@[i] == chunk_vertex_at(
                    cx as int,
                    cz as int,
                    chunk_size as int,
                    i,
                ),
        decreases chunk_size - x,
    {
        proof {
            assert(-111669149697 <= (cx as int) * (chunk_size as int) <= 111669149697)
                by (nonlinear_arith)
                requires
                    -2147483648 <= cx as int <= 2147483647,
                    0 <= chunk_size as int <= 52,
            ;
        }
        let base_x: i64 = (x as i64) + (cx as i64) * (chunk_size as i64);
        let mut z: usize = 0;
        while z < chunk_size
            invariant
                x < chunk_size,
                z <= chunk_size,
                valid_chunk_size(chunk_size as int),
                chunk_size <= 52,
                template@ == cube_vertex_template(),
                base_x == x + cx * chunk_size,
                -200000000000 <= base_x <= 200000000000,
                out@.len() == (x * chunk_size + z) * 24,
                forall|i: int|
                    0 <= i < out@.len() ==> out@[i] == chunk_vertex_at(
                        cx as int,
                        cz as int,
                        chunk_size as int,
                        i,
                    ),
            decreases chunk_size - z,
        {
            proof {
                assert(-111669149697 <= (cz as int) * (chunk_size as int) <= 111669149697)
                    by (nonlinear_arith)
                    requires
                        -2147483648 <= cz as int <= 2147483647,
                        0 <= chunk_size as int <= 52,
                ;
            }
            let base_z: i64 = (z as i64) + (cz as i64) * (chunk_size as i64);
            let ghost cell: int = x * chunk_size + z;
            proof {
                assert(cell < chunk_size * chunk_size) by (nonlinear_arith)
                    requires
                        cell == x * chunk_size + z,
                        0 <= x < chunk_size,
                        0 <= z < chunk_size,
                ;
            }
            let mut k: usize = 0;
            while k < 24
                invariant
                    x < chunk_size,
                    z < chunk_size,
                    k <= 24,
                    valid_chunk_size(chunk_size as int),
                    chunk_size <= 52,
                    template@ == cube_vertex_template(),
                    base_x == x + cx * chunk_size,
                    base_z == z + cz * chunk_size,
                    -200000000000 <= base_x <= 200000000000,
                    -200000000000 <= base_z <= 200000000000,
                    cell == x * chunk_size + z,
                    cell < chunk_size * chunk_size,
                    out@.len() == cell * 24 + k,
                    forall|i: int|
                        0 <= i < out@.len() ==> out@[i] == chunk_vertex_at(
                            cx as int,
                            cz as int,
                            chunk_size as int,
                            i,
                        ),
                decreases 24 - k,
            {
                let t = template[k];
                proof {
                    assert(-1 <= t.pos_x <= 1 && -1 <= t.pos_z <= 1);
                }
                let v = Vertex {
                    pos_x: t.pos_x + base_x,
                    pos_y: t.pos_y,
                    pos_z: t.pos_z + base_z,
                    tex_u: t.tex_u,
                    tex_v: t.tex_v,
                };
                proof {
                    let n: int = out@.len() as int;
                    lemma_fundamental_div_mod_converse(n, 24, cell, k as int);
                    lemma_fundamental_div_mod_converse(cell, chunk_size as int, x as int, z as int);
                }
                out.push(v);
                k = k + 1;
            }
            proof {
                assert((x * chunk_size + z) * 24 + 24 == (x * chunk_size + (z + 1)) * 24)
                    by (nonlinear_arith);
            }
            z = z + 1;
        }
        proof {
            assert((x * chunk_size + chunk_size) * 24 == (x + 1) * chunk_size * 24)
                by (nonlinear_arith);
        }
        x = x + 1;
    }
    proof {
        assert(out@ =~= chunk_vertices_spec(cx as int, cz as int, chunk_size as int));
    }
    out
}

/// Generate the index list of a chunk with edge length `chunk_size`: the cube
/// template's indices for every cell, rebased by 24 per earlier cell. Pure
/// and deterministic; values stay below the chunk's own vertex count.
pub fn generate_chunk_indices(chunk_size: usize) -> (r: Vec<u16>)
    requires
        valid_chunk_size(chunk_size as int),
    ensures
        r@ == chunk_indices_spec(chunk_size as int),
{
    proof {
        lemma_valid_chunk_size_bound(chunk_size as int);
    }
    let mut out: Vec<u16> = Vec::new();
    let mut cell: usize = 0;
    let cell_count: usize = chunk_size * chunk_size;
    while cell < cell_count
        invariant
            cell <= cell_count,
            cell_count == chunk_size * chunk_size,
            valid_chunk_size(chunk_size as int),
            chunk_size <= 52,
            out@.len() == cell * 36,
            forall|i: int|
                0 <= i < out@.len() ==> out@[i] == chunk_indices_spec(chunk_size as int)[i],
        decreases cell_count - cell,
    {
        proof {
            assert(cell * 24 + 24 <= 65536 && cell * 36 + 36 <= cell_count * 36)
                by (nonlinear_arith)
                requires
                    cell < cell_count,
                    cell_count == chunk_size * chunk_size,
                    chunk_size * chunk_size * 24 <= 65536,
            ;
        }
        let offset: u16 = (cell * 24) as u16;
        let mut k: usize = 0;
        while k < 36
            invariant
                cell < cell_count,
                cell_count == chunk_size * chunk_size,
                valid_chunk_size(chunk_size as int),
                k <= 36,
                offset == cell * 24,
                cell * 24 + 24 <= 65536,
                cell * 36 + 36 <= cell_count * 36,
                out@.len() == cell * 36 + k,
                forall|i: int|
                    0 <= i < out@.len() ==> out@[i] == chunk_indices_spec(chunk_size as int)[i],
            decreases 36 - k,
        {
            let local: u16 = match k {
                0 => 0,
                1 => 1,
                2 => 2,
                3 => 2,
                4 => 3,
                5 => 0,
                6 => 4,
                7 => 5,
                8 => 6,
                9 => 6,
                10 => 7,
                11 => 4,
                12 => 8,
                13 => 9,
                14 => 10,
                15 => 10,
                16 => 11,
                17 => 8,
                18 => 12,
                19 => 13,
                20 => 14,
                21 => 14,
                22 => 15,
                23 => 12,
                24 => 16,
                25 => 17,
                26 => 18,
                27 => 18,
                28 => 19,
                29 => 16,
                30 => 20,
                31 => 21,
                32 => 22,
                33 => 22,
                34 => 23,
                _ => 20,
            };
            proof {
                assert(local == cube_index_template()[k as int]);
                let n: int = out@.len() as int;
                lemma_fundamental_div_mod_converse(n, 36, cell as int, k as int);
                assert(n < chunk_size as int * chunk_size as int * 36) by (nonlinear_arith)
                    requires
                        n == cell * 36 + k,
                        0 <= k < 36,
                        cell * 36 + 36 <= cell_count * 36,
                        cell_count == chunk_size * chunk_size,
                ;
            }
            out.push(local + offset);
            k = k + 1;
        }
        cell = cell + 1;
    }
    proof {
        assert(cell_count * 36 == chunk_size as int * chunk_size as int * 36) by (nonlinear_arith)
            requires
                cell_count == chunk_size as int * chunk_size as int,
        ;
        assert(out@ =~= chunk_indices_spec(chunk_size as int));
    }
    out
}

} // verus!
