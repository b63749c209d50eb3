//! The triangle's vertex data, the layout the pipeline reads it with, and the draw call.
use vstd::prelude::*;

verus! {

/// Vertices in the triangle, and in the vertex buffer.
pub const VERTEX_COUNT: u32 = 3;

/// Instances drawn.
pub const INSTANCE_COUNT: u32 = 1;

/// 32-bit components per vertex: three of position, three of color.
pub const WORDS_PER_VERTEX: usize = 6;

/// Bytes in one attribute (three 32-bit components).
pub const ATTRIBUTE_SIZE: u64 = 12;

/// Bytes from one vertex to the next.
pub const VERTEX_STRIDE: u64 = 24;

/// Byte offset of the position within a vertex.
pub const POSITION_OFFSET: u64 = 0;

/// Byte offset of the color within a vertex.
pub const COLOR_OFFSET: u64 = 12;

/// Shader input location of the position.
pub const POSITION_LOCATION: u32 = 0;

/// Shader input location of the color.
pub const COLOR_LOCATION: u32 = 1;

// IEEE 754 single-precision encodings of the coordinates and color channels used.
/// Encoding of zero.
pub const ZERO: u32 = 0x0000_0000;

/// Encoding of one half.
pub const HALF: u32 = 0x3F00_0000;

/// Encoding of minus one half.
pub const MINUS_HALF: u32 = 0xBF00_0000;

/// Encoding of one.
pub const ONE: u32 = 0x3F80_0000;

/// The triangle, vertex by vertex: position (x, y, z) then color (r, g, b).
/// A red apex at the top, a green corner bottom left, a blue corner bottom right.
pub open spec fn triangle_words() -> Seq<u32> {
    seq![
        ZERO, HALF, ZERO, ONE, ZERO, ZERO,
        MINUS_HALF, MINUS_HALF, ZERO, ZERO, ONE, ZERO,
        HALF, MINUS_HALF, ZERO, ZERO, ZERO, ONE,
    ]
}

/// The triangle's vertex data as 32-bit words, vertex by vertex.
pub fn vertex_words() -> (r: Vec<u32>)
    ensures
        r@ == triangle_words(),
        r@.len() == VERTEX_COUNT * WORDS_PER_VERTEX,
{
    let r = vec![
        ZERO, HALF, ZERO, ONE, ZERO, ZERO,
        MINUS_HALF, MINUS_HALF, ZERO, ZERO, ONE, ZERO,
        HALF, MINUS_HALF, ZERO, ZERO, ZERO, ONE,
    ];
    assert(r@ =~= triangle_words());
    r
}

/// Byte `k` (0 to 3, least significant first) of a 32-bit word.
pub open spec fn byte_of(w: u32, k: int) -> u8 {
    if k == 0 {
        (w % 0x100) as u8
    } else if k == 1 {
        ((w / 0x100) % 0x100) as u8
    } else if k == 2 {
        ((w / 0x1_0000) % 0x100) as u8
    } else {
        (w / 0x100_0000) as u8
    }
}

/// The words laid out as bytes, four per word: least significant byte first when
/// `little`, most significant first otherwise.
pub open spec fn encoded(words: Seq<u32>, little: bool) -> Seq<u8> {
    Seq::new(
        4 * words.len(),
        |i: int| byte_of(words[i / 4], if little { i % 4 } else { 3 - i % 4 }),
    )
}

/// Relies on `bytemuck::cast_slice` from `u32` to `u8`: it never fails for this pair
/// of types and hands back the words' own memory as bytes, so each word comes out as
/// its four bytes in the machine's byte order (little-endian or big-endian).
#[verifier::external_body]
fn words_as_bytes(words: &[u32]) -> (r: Vec<u8>)
    ensures
        r@ == encoded(words@, true) || r@ == encoded(words@, false),
{
    bytemuck::cast_slice::<u32, u8>(words).to_vec()
}

/// The contents of the vertex buffer: the triangle's words, each as four bytes in the
/// machine's byte order, which makes `VERTEX_COUNT` vertices of `VERTEX_STRIDE` bytes.
pub fn vertex_bytes() -> (r: Vec<u8>)
    ensures
        r@ == encoded(triangle_words(), true) || r@ == encoded(triangle_words(), false),
        r@.len() == VERTEX_COUNT * VERTEX_STRIDE,
{
    let words = vertex_words();
    words_as_bytes(words.as_slice())
}

/// Where one vertex attribute lies within a vertex; `float_components` is the number
/// of 32-bit floating-point components it holds.
#[derive(Clone, Copy, Debug, PartialEq, Eq, Structural)]
pub struct AttributeLayout {
    pub offset: u64,
    pub float_components: u32,
    pub size: u64,
    pub shader_location: u32,
}

/// How the pipeline reads one vertex from the vertex buffer. `per_vertex` says that
/// the buffer advances once per vertex (not once per instance).
#[derive(Clone, Copy, Debug, PartialEq, Eq, Structural)]
pub struct VertexLayout {
    pub stride: u64,
    pub per_vertex: bool,
    pub position: AttributeLayout,
    pub color: AttributeLayout,
}

/// The layout the vertex data is written in.
pub open spec fn triangle_layout() -> VertexLayout {
    VertexLayout {
        stride: VERTEX_STRIDE,
        per_vertex: true,
        position: AttributeLayout {
            offset: POSITION_OFFSET,
            float_components: 3,
            size: ATTRIBUTE_SIZE,
            shader_location: POSITION_LOCATION,
        },
        color: AttributeLayout {
            offset: COLOR_OFFSET,
            float_components: 3,
            size: ATTRIBUTE_SIZE,
            shader_location: COLOR_LOCATION,
        },
    }
}

/// The vertex layout the pipeline declares, stepping once per vertex: position at
/// offset 0, color right after it, both three 32-bit floats, and the two filling one vertex exactly.
pub fn vertex_layout() -> (r: VertexLayout)
    ensures
        r == triangle_layout(),
        r.position.offset + r.position.size == r.color.offset,
        r.color.offset + r.color.size == r.stride,
        r.stride == 4 * WORDS_PER_VERTEX,
{
    VertexLayout {
        stride: VERTEX_STRIDE,
        per_vertex: true,
        position: AttributeLayout {
            offset: POSITION_OFFSET,
            float_components: 3,
            size: ATTRIBUTE_SIZE,
            shader_location: POSITION_LOCATION,
        },
        color: AttributeLayout {
            offset: COLOR_OFFSET,
            float_components: 3,
            size: ATTRIBUTE_SIZE,
            shader_location: COLOR_LOCATION,
        },
    }
}

/// One draw command: a range of vertices and a range of instances.
#[derive(Clone, Copy, Debug, PartialEq, Eq, Structural)]
pub struct DrawCall {
    pub first_vertex: u32,
    pub vertex_count: u32,
    pub first_instance: u32,
    pub instance_count: u32,
}

/// The single draw of the frame: every vertex of the triangle, one instance.
pub open spec fn triangle_draw() -> DrawCall {
    DrawCall {
        first_vertex: 0,
        vertex_count: VERTEX_COUNT,
        first_instance: 0,
        instance_count: INSTANCE_COUNT,
    }
}

/// The draw call of the frame.
pub fn draw_call() -> (r: DrawCall)
    ensures
        r == triangle_draw(),
{
    DrawCall { first_vertex: 0, vertex_count: VERTEX_COUNT, first_instance: 0, instance_count: INSTANCE_COUNT }
}

} // verus!
