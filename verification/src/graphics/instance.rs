//! Shapes, their uploaded form, and the instances that place them.

use vstd::prelude::*;
use crate::graphics::{Vertex, VertexAttribute, VertexBufferLayout, VertexFormat, VertexStepMode};

verus! {

/// The number of 32-bit words that one instance transform occupies.
pub const INSTANCE_WORDS: u64 = 4;

/// The number of bytes that one instance transform occupies.
pub const INSTANCE_STRIDE: u64 = 16;

/// Where an instance of a shape sits and how it is scaled, each component a
/// single-precision bit pattern.
#[derive(Clone, Copy, Debug)]
pub struct InstanceData {
    /// Offset added to every vertex position.
    pub position: [u32; 2],
    /// Factor applied to every vertex position.
    pub scale: [u32; 2],
}

impl InstanceData {
    /// The layout of the per-instance stream.
    pub open spec fn layout() -> VertexBufferLayout {
        VertexBufferLayout {
            array_stride: INSTANCE_STRIDE,
            step_mode: VertexStepMode::Instance,
            attributes: [
                VertexAttribute { offset: 0, shader_location: 2, format: VertexFormat::Float32x2 },
                VertexAttribute { offset: 8, shader_location: 3, format: VertexFormat::Float32x2 },
            ],
        }
    }

    /// A transform that moves by `position` and scales by `scale`.
    pub fn new(position: [u32; 2], scale: [u32; 2]) -> (data: Self)
        ensures
            data.position == position,
            data.scale == scale,
    {
        InstanceData { position, scale }
    }

    /// Describes the per-instance stream: the offset at byte 0 for shader
    /// input 2, the scale behind it for shader input 3.
    pub fn desc() -> (layout: VertexBufferLayout)
        ensures
            layout == Self::layout(),
            layout.is_packed(),
            layout.array_stride == 4 * INSTANCE_WORDS,
    {
        VertexBufferLayout {
            array_stride: INSTANCE_STRIDE,
            step_mode: VertexStepMode::Instance,
            attributes: [
                VertexAttribute { offset: 0, shader_location: 2, format: VertexFormat::Float32x2 },
                VertexAttribute { offset: 8, shader_location: 3, format: VertexFormat::Float32x2 },
            ],
        }
    }
}

/// A polygon to upload: its corners, and indices into them that list its
/// triangles.
#[derive(Clone, Debug)]
pub struct Shape {
    /// The corners.
    pub vertices: Vec<Vertex>,
    /// Three indices per triangle, each a position in `vertices`.
    pub indices: Vec<u16>,
}

/// A shape as a pair of sequences.
pub struct ShapeView {
    /// The corners.
    pub vertices: Seq<Vertex>,
    /// The triangle indices.
    pub indices: Seq<u16>,
}

impl View for Shape {
    type V = ShapeView;

    open spec fn view(&self) -> ShapeView {
        ShapeView { vertices: self.vertices@, indices: self.indices@ }
    }
}

/// A registered shape: the bytes that its two device buffers hold, and the
/// number of indices that a draw of it covers.
pub struct ShapeData {
    /// The content of the vertex buffer.
    pub vertex_buffer: Vec<u8>,
    /// The content of the index buffer.
    pub index_buffer: Vec<u8>,
    /// The number of indices in the index buffer.
    pub indices_count: u32,
}

/// A registered shape with its buffer contents as sequences.
pub struct ShapeDataView {
    /// The content of the vertex buffer.
    pub vertex_buffer: Seq<u8>,
    /// The content of the index buffer.
    pub index_buffer: Seq<u8>,
    /// The number of indices in the index buffer.
    pub indices_count: u32,
}

impl View for ShapeData {
    type V = ShapeDataView;

    open spec fn view(&self) -> ShapeDataView {
        ShapeDataView {
            vertex_buffer: self.vertex_buffer@,
            index_buffer: self.index_buffer@,
            indices_count: self.indices_count,
        }
    }
}

/// One placed occurrence of a registered shape.
pub struct ObjectInstance {
    /// The geometry that is drawn.
    pub shape: ShapeData,
    /// Where it is drawn, and how large.
    pub data: InstanceData,
}

/// A placed shape with its buffer contents as sequences.
pub struct ObjectInstanceView {
    /// The geometry that is drawn.
    pub shape: ShapeDataView,
    /// Where it is drawn, and how large.
    pub data: InstanceData,
}

impl View for ObjectInstance {
    type V = ObjectInstanceView;

    open spec fn view(&self) -> ObjectInstanceView {
        ObjectInstanceView { shape: self.shape@, data: self.data }
    }
}

impl ObjectInstance {
    /// Places `shape` with the transform `data`.
    pub fn new(shape: ShapeData, data: InstanceData) -> (instance: Self)
        ensures
            instance@ == (ObjectInstanceView { shape: shape@, data }),
    {
        ObjectInstance { shape, data }
    }
}

/// The views of a list of instances, in order.
pub open spec fn instance_views(instances: Seq<ObjectInstance>) -> Seq<ObjectInstanceView> {
    Seq::new(instances.len(), |i: int| instances[i]@)
}

/// The five words of a vertex in memory order: position, then colour.
pub open spec fn vertex_words(vertex: Vertex) -> Seq<u32> {
    seq![
        vertex.position[0],
        vertex.position[1],
        vertex.color[0],
        vertex.color[1],
        vertex.color[2],
    ]
}

/// The words of a run of vertices: five per vertex, the vertices in order.
pub open spec fn vertices_words(vertices: Seq<Vertex>) -> Seq<u32> {
    Seq::new(5 * vertices.len(), |i: int| vertex_words(vertices[i / 5])[i % 5])
}

/// The four words of a transform in memory order: offset, then scale.
pub open spec fn transform_words(data: InstanceData) -> Seq<u32> {
    seq![data.position[0], data.position[1], data.scale[0], data.scale[1]]
}

/// The words of the transforms of a list of instances: four per instance, the
/// instances in order.
pub open spec fn transforms_words(instances: Seq<ObjectInstanceView>) -> Seq<u32> {
    Seq::new(4 * instances.len(), |i: int| transform_words(instances[i / 4].data)[i % 4])
}

/// The number of indices as a draw call takes it: the low 32 bits of the
/// length.
pub open spec fn draw_count(len: nat) -> u32 {
    (len % 0x1_0000_0000) as u32
}

/// `data` is the uploaded form of `shape`: its buffers hold the memory image
/// of the vertices and of the indices, neither a byte longer, and it counts
/// every index.
pub open spec fn is_upload_of(data: ShapeDataView, shape: ShapeView) -> bool {
    &&& crate::encoding::is_words_image(data.vertex_buffer, vertices_words(shape.vertices))
    &&& crate::encoding::is_halves_image(data.index_buffer, shape.indices)
    &&& data.indices_count == draw_count(shape.indices.len())
}

/// A length that fits in 32 bits is counted exactly.
pub proof fn lemma_draw_count_is_exact(len: nat)
    requires
        len <= u32::MAX,
    ensures
        draw_count(len) == len,
{
}

/// The buffers of an uploaded shape are exactly as long as its data: one
/// vertex stride per vertex, two bytes per index.
pub proof fn lemma_upload_is_exact(data: ShapeDataView, shape: ShapeView)
    requires
        is_upload_of(data, shape),
    ensures
        data.vertex_buffer.len() == crate::graphics::VERTEX_STRIDE * shape.vertices.len(),
        data.index_buffer.len() == 2 * shape.indices.len(),
{
}

/// Lays a run of vertices out as words.
pub fn words_of_vertices(vertices: &Vec<Vertex>) -> (words: Vec<u32>)
    ensures
        words@ == vertices_words(vertices@),
{
    let mut words: Vec<u32> = Vec::new();
    let mut done: usize = 0;
    while done < vertices.len()
        invariant
            done <= vertices.len(),
            words@.len() == 5 * done,
            forall|i: int|
                0 <= i < words@.len() ==> words@[i] == vertex_words(vertices@[i / 5])[i % 5],
        decreases vertices.len() - done,
    {
        let vertex = vertices[done];
        words.push(vertex.position[0]);
        words.push(vertex.position[1]);
        words.push(vertex.color[0]);
        words.push(vertex.color[1]);
        words.push(vertex.color[2]);
        done = done + 1;
    }
    assert(words@ =~= vertices_words(vertices@));
    words
}

/// Lays the transforms of a list of instances out as words.
pub fn words_of_transforms(instances: &Vec<ObjectInstance>) -> (words: Vec<u32>)
    ensures
        words@ == transforms_words(instance_views(instances@)),
{
    let mut words: Vec<u32> = Vec::new();
    let mut done: usize = 0;
    while done < instances.len()
        invariant
            done <= instances.len(),
            words@.len() == 4 * done,
            forall|i: int|
                0 <= i < words@.len() ==> words@[i] == transform_words(instances@[i / 4].data)[i
                    % 4],
        decreases instances.len() - done,
    {
        let data = instances[done].data;
        words.push(data.position[0]);
        words.push(data.position[1]);
        words.push(data.scale[0]);
        words.push(data.scale[1]);
        done = done + 1;
    }
    assert(words@ =~= transforms_words(instance_views(instances@)));
    words
}

/// The number of indices of a shape as a draw call takes it.
pub fn count_for_draw(len: usize) -> (count: u32)
    ensures
        count == draw_count(len as nat),
        len <= u32::MAX ==> count == len,
{
    let wide: u64 = len as u64;
    (wide % 0x1_0000_0000) as u32
}

} // verus!
