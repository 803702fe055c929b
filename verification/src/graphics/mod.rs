//! Geometry as the graphics pipeline reads it: vertices, and the layout of a
//! vertex stream in memory.

pub mod instance;

use vstd::prelude::*;

verus! {

/// The number of 32-bit words that one vertex occupies.
pub const VERTEX_WORDS: u64 = 5;

/// The number of bytes that one vertex occupies.
pub const VERTEX_STRIDE: u64 = 20;

/// The pattern of 0.8, the reach of the sample square.
pub const SQUARE_REACH: u32 = 0x3f4c_cccd;

/// The pattern of -0.8.
pub const SQUARE_REACH_NEGATED: u32 = 0xbf4c_cccd;

/// One corner of a polygon: a position in normalized device coordinates and
/// a colour, each component a single-precision bit pattern.
#[derive(Clone, Copy, Debug)]
pub struct Vertex {
    /// Horizontal and vertical position, each in -1 to 1 across the surface.
    pub position: [u32; 2],
    /// Red, green and blue, each in 0 to 1.
    pub color: [u32; 3],
}

/// How often the pipeline steps to the next element of a stream.
#[derive(Clone, Copy, Debug, PartialEq, Eq, Structural)]
pub enum VertexStepMode {
    /// Once per vertex.
    Vertex,
    /// Once per instance.
    Instance,
}

/// The shape of one attribute of a stream element.
#[derive(Clone, Copy, Debug, PartialEq, Eq, Structural)]
pub enum VertexFormat {
    /// Two single-precision components.
    Float32x2,
    /// Three single-precision components.
    Float32x3,
}

/// One attribute of a stream element: where it starts, which shader input it
/// feeds and what shape it has.
#[derive(Clone, Copy, Debug, PartialEq, Eq, Structural)]
pub struct VertexAttribute {
    /// Byte offset from the start of the element.
    pub offset: u64,
    /// The shader input that receives the attribute.
    pub shader_location: u32,
    /// The attribute's shape.
    pub format: VertexFormat,
}

/// The memory layout of one stream of the pipeline: two attributes per
/// element.
#[derive(Clone, Copy, Debug)]
pub struct VertexBufferLayout {
    /// Bytes from one element to the next.
    pub array_stride: u64,
    /// Whether the stream advances per vertex or per instance.
    pub step_mode: VertexStepMode,
    /// The attributes of an element, in memory order.
    pub attributes: [VertexAttribute; 2],
}

impl VertexFormat {
    /// The number of bytes that an attribute of this shape occupies.
    pub open spec fn byte_len(self) -> int {
        match self {
            VertexFormat::Float32x2 => 8,
            VertexFormat::Float32x3 => 12,
        }
    }

    /// The number of bytes that an attribute of this shape occupies.
    pub fn size(&self) -> (bytes: u64)
        ensures
            bytes == self.byte_len(),
    {
        match self {
            VertexFormat::Float32x2 => 8,
            VertexFormat::Float32x3 => 12,
        }
    }
}

impl VertexBufferLayout {
    /// The attributes follow one another from offset 0 without a gap and end
    /// exactly at the stride.
    pub open spec fn is_packed(self) -> bool {
        &&& self.attributes[0].offset == 0
        &&& self.attributes[1].offset == self.attributes[0].format.byte_len()
        &&& self.array_stride == self.attributes[1].offset
            + self.attributes[1].format.byte_len()
    }
}

impl Vertex {
    /// The layout of the per-vertex stream.
    pub open spec fn layout() -> VertexBufferLayout {
        VertexBufferLayout {
            array_stride: VERTEX_STRIDE,
            step_mode: VertexStepMode::Vertex,
            attributes: [
                VertexAttribute { offset: 0, shader_location: 0, format: VertexFormat::Float32x2 },
                VertexAttribute { offset: 8, shader_location: 1, format: VertexFormat::Float32x3 },
            ],
        }
    }

    /// A vertex at `position` with colour `color`.
    pub fn new(position: [u32; 2], color: [u32; 3]) -> (vertex: Self)
        ensures
            vertex.position == position,
            vertex.color == color,
    {
        Vertex { position, color }
    }

    /// Describes the per-vertex stream: the position at offset 0 for shader
    /// input 0, the colour behind it for shader input 1.
    pub fn desc() -> (layout: VertexBufferLayout)
        ensures
            layout == Self::layout(),
            layout.is_packed(),
            layout.array_stride == 4 * VERTEX_WORDS,
    {
        VertexBufferLayout {
            array_stride: VERTEX_STRIDE,
            step_mode: VertexStepMode::Vertex,
            attributes: [
                VertexAttribute { offset: 0, shader_location: 0, format: VertexFormat::Float32x2 },
                VertexAttribute { offset: 8, shader_location: 1, format: VertexFormat::Float32x3 },
            ],
        }
    }
}

/// The colour of every shape that this library lays out: mid grey.
pub open spec fn fill_color() -> [u32; 3] {
    [crate::scalar::HALF, crate::scalar::HALF, crate::scalar::HALF]
}

/// The colour of every shape that this library lays out.
pub fn fill() -> (color: [u32; 3])
    ensures
        color == fill_color(),
{
    [crate::scalar::HALF, crate::scalar::HALF, crate::scalar::HALF]
}

/// The corners of the sample square, clockwise from the top left.
pub open spec fn square_vertices() -> Seq<Vertex> {
    seq![
        Vertex { position: [SQUARE_REACH_NEGATED, SQUARE_REACH], color: fill_color() },
        Vertex { position: [SQUARE_REACH, SQUARE_REACH], color: fill_color() },
        Vertex { position: [SQUARE_REACH, SQUARE_REACH_NEGATED], color: fill_color() },
        Vertex { position: [SQUARE_REACH_NEGATED, SQUARE_REACH_NEGATED], color: fill_color() },
    ]
}

/// The two triangles of the sample square.
pub open spec fn square_indices() -> Seq<u16> {
    seq![1u16, 0u16, 3u16, 3u16, 2u16, 1u16]
}

/// A square that reaches 0.8 from the centre in each direction, as four
/// corners and the six indices of its two triangles.
pub fn square() -> (geometry: (Vec<Vertex>, Vec<u16>))
    ensures
        geometry.0@ == square_vertices(),
        geometry.1@ == square_indices(),
{
    let color = fill();
    let mut vertices: Vec<Vertex> = Vec::new();
    vertices.push(Vertex { position: [SQUARE_REACH_NEGATED, SQUARE_REACH], color });
    vertices.push(Vertex { position: [SQUARE_REACH, SQUARE_REACH], color });
    vertices.push(Vertex { position: [SQUARE_REACH, SQUARE_REACH_NEGATED], color });
    vertices.push(Vertex { position: [SQUARE_REACH_NEGATED, SQUARE_REACH_NEGATED], color });
    let mut indices: Vec<u16> = Vec::new();
    indices.push(1);
    indices.push(0);
    indices.push(3);
    indices.push(3);
    indices.push(2);
    indices.push(1);
    (vertices, indices)
}

} // verus!
