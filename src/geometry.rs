//! The sprite quad and the layout of its vertex buffer.
//!
//! Positions are kept in half units (a coordinate `x` stands for `x / 2`)
//! and texture coordinates in sheet pixels (`u` stands for `u / width`), so
//! that the geometry is exact integers until it is uploaded.
use vstd::prelude::*;

verus! {

/// Side of one sprite on the sheet, in pixels.
pub const SPRITE_PIXELS: u32 = 32;

/// Floats per vertex: three of position, two of texture coordinate.
pub const FLOATS_PER_VERTEX: usize = 5;

pub const POSITION_COMPONENTS: i32 = 3;

pub const TEXCOORD_COMPONENTS: i32 = 2;

/// Bytes in one `f32`.
pub const FLOAT_BYTES: usize = 4;

/// One vertex of the quad: position `(x / 2, y / 2, 0)` and texture
/// coordinate `(u / width, v / height)` of the sheet.
#[derive(Clone, Copy, Debug, PartialEq, Eq, Structural)]
pub struct QuadVertex {
    pub x: i32,
    pub y: i32,
    pub u: u32,
    pub v: u32,
}

/// One vertex attribute as handed to the driver.
#[derive(Clone, Copy, Debug, PartialEq, Eq, Structural)]
pub struct VertexAttrib {
    pub index: u32,
    pub components: i32,
    pub stride_bytes: i32,
    pub offset_bytes: usize,
}

pub open spec fn vertex(x: int, y: int, u: int, v: int) -> QuadVertex {
    QuadVertex { x: x as i32, y: y as i32, u: u as u32, v: v as u32 }
}

/// The two triangles that cover the centred square of side 1, showing the
/// sprite in the sheet's top-left corner.
pub open spec fn sprite_quad_spec() -> Seq<QuadVertex> {
    let s = SPRITE_PIXELS as int;
    seq![
        vertex(-1, 1, 0, 0),
        vertex(1, -1, s, s),
        vertex(-1, -1, 0, s),
        vertex(-1, 1, 0, 0),
        vertex(1, 1, s, 0),
        vertex(1, -1, s, s),
    ]
}

/// The vertices of the sprite quad, in drawing order.
pub fn sprite_quad() -> (r: Vec<QuadVertex>)
    ensures
        r@ == sprite_quad_spec(),
{
    let s = SPRITE_PIXELS;
    let r = vec![
        QuadVertex { x: -1, y: 1, u: 0, v: 0 },
        QuadVertex { x: 1, y: -1, u: s, v: s },
        QuadVertex { x: -1, y: -1, u: 0, v: s },
        QuadVertex { x: -1, y: 1, u: 0, v: 0 },
        QuadVertex { x: 1, y: 1, u: s, v: 0 },
        QuadVertex { x: 1, y: -1, u: s, v: s },
    ];
    assert(r@ =~= sprite_quad_spec());
    r
}

pub open spec fn vertex_attributes_spec() -> Seq<VertexAttrib> {
    let stride = (FLOATS_PER_VERTEX * FLOAT_BYTES) as i32;
    seq![
        VertexAttrib {
            index: 0,
            components: POSITION_COMPONENTS,
            stride_bytes: stride,
            offset_bytes: 0,
        },
        VertexAttrib {
            index: 1,
            components: TEXCOORD_COMPONENTS,
            stride_bytes: stride,
            offset_bytes: (POSITION_COMPONENTS as usize * FLOAT_BYTES) as usize,
        },
    ]
}

/// The interleaved layout: attribute 0 is the position, attribute 1 the
/// texture coordinate right after it, both with the stride of a whole vertex.
pub fn vertex_attributes() -> (r: Vec<VertexAttrib>)
    ensures
        r@ == vertex_attributes_spec(),
        r@.len() == 2,
        r@[0].components + r@[1].components == FLOATS_PER_VERTEX,
        r@[1].offset_bytes == r@[0].components * FLOAT_BYTES,
        r@[0].stride_bytes == FLOATS_PER_VERTEX * FLOAT_BYTES,
{
    let stride: i32 = (FLOATS_PER_VERTEX * FLOAT_BYTES) as i32;
    let r = vec![
        VertexAttrib {
            index: 0,
            components: POSITION_COMPONENTS,
            stride_bytes: stride,
            offset_bytes: 0,
        },
        VertexAttrib {
            index: 1,
            components: TEXCOORD_COMPONENTS,
            stride_bytes: stride,
            offset_bytes: POSITION_COMPONENTS as usize * FLOAT_BYTES,
        },
    ];
    assert(r@ =~= vertex_attributes_spec());
    r
}

/// The byte size of a buffer of `n_floats` floats, when it fits the
/// driver's signed size type.
pub fn buffer_size_bytes(n_floats: usize) -> (r: Option<isize>)
    ensures
        r is Some <==> n_floats * FLOAT_BYTES <= isize::MAX,
        r matches Some(b) ==> b == n_floats * FLOAT_BYTES,
{
    if n_floats <= (isize::MAX as usize) / FLOAT_BYTES {
        Some((n_floats * FLOAT_BYTES) as isize)
    } else {
        None
    }
}

/// The number of vertices in a buffer of `n_floats` interleaved floats, when
/// the buffer holds whole vertices and the count fits a draw call's count.
pub fn vertex_count(n_floats: usize) -> (r: Option<i32>)
    ensures
        r is Some <==> (n_floats % FLOATS_PER_VERTEX == 0 && n_floats / FLOATS_PER_VERTEX
            <= i32::MAX),
        r matches Some(n) ==> n * FLOATS_PER_VERTEX == n_floats,
{
    if n_floats % FLOATS_PER_VERTEX == 0 && n_floats / FLOATS_PER_VERTEX <= i32::MAX as usize {
        Some((n_floats / FLOATS_PER_VERTEX) as i32)
    } else {
        None
    }
}

} // verus!
