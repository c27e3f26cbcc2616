//! The cube template: the vertex and index lists of one unit cube, shared by
//! every cell of every chunk. Positions lie on the integer lattice and texture
//! coordinates are 0 or 1, so both are exact integers.

use vstd::prelude::*;

verus! {

/// One vertex of the cube geometry: a lattice position and a corner texture
/// coordinate.
#[derive(Clone, Copy, Debug, PartialEq, Eq, Structural)]
pub struct Vertex {
    pub pos_x: i64,
    pub pos_y: i64,
    pub pos_z: i64,
    pub tex_u: u8,
    pub tex_v: u8,
}

/// Number of vertices in the cube template.
pub const CUBE_VERTEX_COUNT: usize = 24;

/// Number of indices in the cube template (6 faces, 2 triangles each).
pub const CUBE_INDEX_COUNT: usize = 36;

/// The 24 template vertices: four corners for each of the six faces of a cube
/// spanning [-1, 1] on every axis.
pub open spec fn cube_vertex_template() -> Seq<Vertex> {
    seq![
        // Front face
        Vertex { pos_x: -1i64, pos_y: -1i64, pos_z: 1i64, tex_u: 0u8, tex_v: 0u8 },
        Vertex { pos_x: 1i64, pos_y: -1i64, pos_z: 1i64, tex_u: 1u8, tex_v: 0u8 },
        Vertex { pos_x: 1i64, pos_y: 1i64, pos_z: 1i64, tex_u: 1u8, tex_v: 1u8 },
        Vertex { pos_x: -1i64, pos_y: 1i64, pos_z: 1i64, tex_u: 0u8, tex_v: 1u8 },
        // Back face
        Vertex { pos_x: -1i64, pos_y: -1i64, pos_z: -1i64, tex_u: 0u8, tex_v: 0u8 },
        Vertex { pos_x: -1i64, pos_y: 1i64, pos_z: -1i64, tex_u: 0u8, tex_v: 1u8 },
        Vertex { pos_x: 1i64, pos_y: 1i64, pos_z: -1i64, tex_u: 1u8, tex_v: 1u8 },
        Vertex { pos_x: 1i64, pos_y: -1i64, pos_z: -1i64, tex_u: 1u8, tex_v: 0u8 },
        // Top face
        Vertex { pos_x: -1i64, pos_y: 1i64, pos_z: -1i64, tex_u: 0u8, tex_v: 1u8 },
        Vertex { pos_x: -1i64, pos_y: 1i64, pos_z: 1i64, tex_u: 0u8, tex_v: 0u8 },
        Vertex { pos_x: 1i64, pos_y: 1i64, pos_z: 1i64, tex_u: 1u8, tex_v: 0u8 },
        Vertex { pos_x: 1i64, pos_y: 1i64, pos_z: -1i64, tex_u: 1u8, tex_v: 1u8 },
        // Bottom face
        Vertex { pos_x: -1i64, pos_y: -1i64, pos_z: -1i64, tex_u: 0u8, tex_v: 0u8 },
        Vertex { pos_x: 1i64, pos_y: -1i64, pos_z: -1i64, tex_u: 1u8, tex_v: 0u8 },
        Vertex { pos_x: 1i64, pos_y: -1i64, pos_z: 1i64, tex_u: 1u8, tex_v: 1u8 },
        Vertex { pos_x: -1i64, pos_y: -1i64, pos_z: 1i64, tex_u: 0u8, tex_v: 1u8 },
        // Right face
        Vertex { pos_x: 1i64, pos_y: -1i64, pos_z: -1i64, tex_u: 0u8, tex_v: 0u8 },
        Vertex { pos_x: 1i64, pos_y: 1i64, pos_z: -1i64, tex_u: 0u8, tex_v: 1u8 },
        Vertex { pos_x: 1i64, pos_y: 1i64, pos_z: 1i64, tex_u: 1u8, tex_v: 1u8 },
        Vertex { pos_x: 1i64, pos_y: -1i64, pos_z: 1i64, tex_u: 1u8, tex_v: 0u8 },
        // Left face
        Vertex { pos_x: -1i64, pos_y: -1i64, pos_z: -1i64, tex_u: 1u8, tex_v: 0u8 },
        Vertex { pos_x: -1i64, pos_y: -1i64, pos_z: 1i64, tex_u: 1u8, tex_v: 1u8 },
        Vertex { pos_x: -1i64, pos_y: 1i64, pos_z: 1i64, tex_u: 0u8, tex_v: 1u8 },
        Vertex { pos_x: -1i64, pos_y: 1i64, pos_z: -1i64, tex_u: 0u8, tex_v: 0u8 },
    ]
}

/// The 36 template indices: two counter-clockwise triangles per face,
/// referencing the template vertices.
pub open spec fn cube_index_template() -> Seq<u16> {
    seq![
        0u16, 1u16, 2u16, 2u16, 3u16, 0u16, // front
        4u16, 5u16, 6u16, 6u16, 7u16, 4u16, // back
        8u16, 9u16, 10u16, 10u16, 11u16, 8u16, // top
        12u16, 13u16, 14u16, 14u16, 15u16, 12u16, // bottom
        16u16, 17u16, 18u16, 18u16, 19u16, 16u16, // right
        20u16, 21u16, 22u16, 22u16, 23u16, 20u16, // left
    ]
}

/// The cube template's vertex list as an owned vector.
pub fn cube_vertices() -> (r: Vec<Vertex>)
    ensures
        r@ == cube_vertex_template(),
{
    let mut r: Vec<Vertex> = Vec::new();
    r.push(Vertex { pos_x: -1, pos_y: -1, pos_z: 1, tex_u: 0, tex_v: 0 });
    r.push(Vertex { pos_x: 1, pos_y: -1, pos_z: 1, tex_u: 1, tex_v: 0 });
    r.push(Vertex { pos_x: 1, pos_y: 1, pos_z: 1, tex_u: 1, tex_v: 1 });
    r.push(Vertex { pos_x: -1, pos_y: 1, pos_z: 1, tex_u: 0, tex_v: 1 });
    r.push(Vertex { pos_x: -1, pos_y: -1, pos_z: -1, tex_u: 0, tex_v: 0 });
    r.push(Vertex { pos_x: -1, pos_y: 1, pos_z: -1, tex_u: 0, tex_v: 1 });
    r.push(Vertex { pos_x: 1, pos_y: 1, pos_z: -1, tex_u: 1, tex_v: 1 });
    r.push(Vertex { pos_x: 1, pos_y: -1, pos_z: -1, tex_u: 1, tex_v: 0 });
    r.push(Vertex { pos_x: -1, pos_y: 1, pos_z: -1, tex_u: 0, tex_v: 1 });
    r.push(Vertex { pos_x: -1, pos_y: 1, pos_z: 1, tex_u: 0, tex_v: 0 });
    r.push(Vertex { pos_x: 1, pos_y: 1, pos_z: 1, tex_u: 1, tex_v: 0 });
    r.push(Vertex { pos_x: 1, pos_y: 1, pos_z: -1, tex_u: 1, tex_v: 1 });
    r.push(Vertex { pos_x: -1, pos_y: -1, pos_z: -1, tex_u: 0, tex_v: 0 });
    r.push(Vertex { pos_x: 1, pos_y: -1, pos_z: -1, tex_u: 1, tex_v: 0 });
    r.push(Vertex { pos_x: 1, pos_y: -1, pos_z: 1, tex_u: 1, tex_v: 1 });
    r.push(Vertex { pos_x: -1, pos_y: -1, pos_z: 1, tex_u: 0, tex_v: 1 });
    r.push(Vertex { pos_x: 1, pos_y: -1, pos_z: -1, tex_u: 0, tex_v: 0 });
    r.push(Vertex { pos_x: 1, pos_y: 1, pos_z: -1, tex_u: 0, tex_v: 1 });
    r.push(Vertex { pos_x: 1, pos_y: 1, pos_z: 1, tex_u: 1, tex_v: 1 });
    r.push(Vertex { pos_x: 1, pos_y: -1, pos_z: 1, tex_u: 1, tex_v: 0 });
    r.push(Vertex { pos_x: -1, pos_y: -1, pos_z: -1, tex_u: 1, tex_v: 0 });
    r.push(Vertex { pos_x: -1, pos_y: -1, pos_z: 1, tex_u: 1, tex_v: 1 });
    r.push(Vertex { pos_x: -1, pos_y: 1, pos_z: 1, tex_u: 0, tex_v: 1 });
    r.push(Vertex { pos_x: -1, pos_y: 1, pos_z: -1, tex_u: 0, tex_v: 0 });
    proof {
        assert(r@ =~= cube_vertex_template());
    }
    r
}

/// The cube template's index list as an owned vector.
pub fn cube_indices() -> (r: Vec<u16>)
    ensures
        r@ == cube_index_template(),
{
    let mut r: Vec<u16> = Vec::new();
    r.push(0);
    r.push(1);
    r.push(2);
    r.push(2);
    r.push(3);
    r.push(0);
    r.push(4);
    r.push(5);
    r.push(6);
    r.push(6);
    r.push(7);
    r.push(4);
    r.push(8);
    r.push(9);
    r.push(10);
    r.push(10);
    r.push(11);
    r.push(8);
    r.push(12);
    r.push(13);
    r.push(14);
    r.push(14);
    r.push(15);
    r.push(12);
    r.push(16);
    r.push(17);
    r.push(18);
    r.push(18);
    r.push(19);
    r.push(16);
    r.push(20);
    r.push(21);
    r.push(22);
    r.push(22);
    r.push(23);
    r.push(20);
    proof {
        assert(r@ =~= cube_index_template());
    }
    r
}

} // verus!
