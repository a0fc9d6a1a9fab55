//! Vertices of sprites, and the vertex buffers that hold them.

use crate::device::Destroy;
use crate::gl::{
    DataSource, GlCommand, ARRAY_BUFFER, DYNAMIC_DRAW, ELEMENT_ARRAY_BUFFER, FLOAT, STATIC_DRAW,
};
use vstd::prelude::*;

verus! {

/// A vertex in whole numbers. On its way into a vertex buffer each vertex
/// becomes eight floats: the position, the texture coordinate `texel /
/// extent` on each axis, and the colour with each channel divided by 255.
#[derive(Debug, Clone, Copy, PartialEq, Eq)]
pub struct Vertex {
    /// Position in pixels.
    pub position: [i64; 2],
    /// Position in the texture, in texels.
    pub texel: [u32; 2],
    /// Size of the texture, in texels.
    pub extent: [u32; 2],
    /// Red, green, blue and alpha.
    pub color: [u8; 4],
}

/// Bytes from one vertex to the next in a vertex buffer.
pub const VERTEX_STRIDE: u32 = 32;

/// Attribute location and byte offset of the position: two floats.
pub const POSITION_LOC: u32 = 0;

pub const POSITION_OFFSET: u32 = 0;

/// Attribute location and byte offset of the texture coordinate: two floats.
pub const UV_LOC: u32 = 1;

pub const UV_OFFSET: u32 = 8;

/// Attribute location and byte offset of the colour: four floats.
pub const COLOR_LOC: u32 = 2;

pub const COLOR_OFFSET: u32 = 16;

/// Bytes of one index of an index buffer.
pub const INDEX_BYTES: u32 = 2;

/// The GL calls that switch on one float attribute of interleaved vertices
/// and say where it lies in each vertex.
pub open spec fn attribute_commands(index: u32, size: u32, offset: u32) -> Seq<GlCommand> {
    seq![
        GlCommand::EnableVertexAttribArray { index },
        GlCommand::VertexAttribPointer {
            index,
            size,
            data_type: FLOAT,
            normalized: false,
            stride: VERTEX_STRIDE,
            offset,
        },
        GlCommand::AssertNoError,
    ]
}

/// The GL calls that fill a new vertex array: the vertex buffer is bound
/// and filled from `vertices`, the three attributes are laid out, the index
/// buffer is bound and filled from `indices`, and the array buffer and the
/// vertex array are unbound. The index buffer stays bound in the vertex
/// array.
pub open spec fn setup_commands(
    buffer: VertexBuffer,
    vertices: DataSource,
    indices: DataSource,
    usage: u32,
) -> Seq<GlCommand> {
    seq![
        GlCommand::BindVertexArray { vertex_array: Some(buffer.vertex_array()) },
        GlCommand::BindBuffer { target: ARRAY_BUFFER, buffer: Some(buffer.vertices()) },
        GlCommand::BufferData { target: ARRAY_BUFFER, source: vertices, usage },
        GlCommand::AssertNoError,
    ] + attribute_commands(POSITION_LOC, 2, POSITION_OFFSET) + attribute_commands(
        UV_LOC,
        2,
        UV_OFFSET,
    ) + attribute_commands(COLOR_LOC, 4, COLOR_OFFSET) + seq![
        GlCommand::BindBuffer { target: ELEMENT_ARRAY_BUFFER, buffer: Some(buffer.indices()) },
        GlCommand::BufferData { target: ELEMENT_ARRAY_BUFFER, source: indices, usage },
        GlCommand::BindBuffer { target: ARRAY_BUFFER, buffer: None },
        GlCommand::BindVertexArray { vertex_array: None },
    ]
}

/// Handle to a vertex array object located in video memory, with its vertex
/// buffer and its index buffer.
#[derive(Debug, Clone, Copy, PartialEq, Eq)]
pub struct VertexBuffer {
    handle: u32,
    vertex_buffer: u32,
    index_buffer: u32,
}

impl VertexBuffer {
    /// The GL name of the vertex array object.
    pub closed spec fn vertex_array(self) -> u32 {
        self.handle
    }

    /// The GL name of the buffer of vertices.
    pub closed spec fn vertices(self) -> u32 {
        self.vertex_buffer
    }

    /// The GL name of the buffer of indices.
    pub closed spec fn indices(self) -> u32 {
        self.index_buffer
    }

    fn setup(&self, vertices: DataSource, indices: DataSource, usage: u32) -> (commands: Vec<
        GlCommand,
    >)
        ensures
            commands@ == setup_commands(*self, vertices, indices, usage),
    {
        let mut commands: Vec<GlCommand> = Vec::new();
        commands.push(GlCommand::BindVertexArray { vertex_array: Some(self.handle) });
        commands.push(
            GlCommand::BindBuffer { target: ARRAY_BUFFER, buffer: Some(self.vertex_buffer) },
        );
        commands.push(GlCommand::BufferData { target: ARRAY_BUFFER, source: vertices, usage });
        commands.push(GlCommand::AssertNoError);
        Self::attribute(&mut commands, POSITION_LOC, 2, POSITION_OFFSET);
        Self::attribute(&mut commands, UV_LOC, 2, UV_OFFSET);
        Self::attribute(&mut commands, COLOR_LOC, 4, COLOR_OFFSET);
        commands.push(
            GlCommand::BindBuffer { target: ELEMENT_ARRAY_BUFFER, buffer: Some(self.index_buffer) },
        );
        commands.push(
            GlCommand::BufferData { target: ELEMENT_ARRAY_BUFFER, source: indices, usage },
        );
        commands.push(GlCommand::BindBuffer { target: ARRAY_BUFFER, buffer: None });
        commands.push(GlCommand::BindVertexArray { vertex_array: None });
        proof {
            assert(commands@ =~= setup_commands(*self, vertices, indices, usage));
        }
        commands
    }

    fn attribute(commands: &mut Vec<GlCommand>, index: u32, size: u32, offset: u32)
        ensures
            final(commands)@ == old(commands)@ + attribute_commands(index, size, offset),
    {
        commands.push(GlCommand::EnableVertexAttribArray { index });
        commands.push(
            GlCommand::VertexAttribPointer {
                index,
                size,
                data_type: FLOAT,
                normalized: false,
                stride: VERTEX_STRIDE,
                offset,
            },
        );
        commands.push(GlCommand::AssertNoError);
        proof {
            assert(commands@ =~= old(commands)@ + attribute_commands(index, size, offset));
        }
    }

    /// A vertex array of the freshly created GL names `handle`,
    /// `vertex_buffer` and `index_buffer` that holds the given vertices and
    /// indices for good, with the GL calls that fill it.
    pub fn new_static(
        handle: u32,
        vertex_buffer: u32,
        index_buffer: u32,
        vertices: &[Vertex],
        indices: &[u16],
    ) -> (r: (VertexBuffer, Vec<GlCommand>))
        ensures
            r.0.vertex_array() == handle,
            r.0.vertices() == vertex_buffer,
            r.0.indices() == index_buffer,
            r.1@ == setup_commands(
                r.0,
                DataSource::Vertices { first: 0, count: vertices@.len() as usize },
                DataSource::Indices { first: 0, count: indices@.len() as usize },
                STATIC_DRAW,
            ),
    {
        let buffer = VertexBuffer { handle, vertex_buffer, index_buffer };
        let commands = buffer.setup(
            DataSource::Vertices { first: 0, count: vertices.len() },
            DataSource::Indices { first: 0, count: indices.len() },
            STATIC_DRAW,
        );
        (buffer, commands)
    }

    /// A vertex array of the freshly created GL names `handle`,
    /// `vertex_buffer` and `index_buffer` with room for `max_vertices`
    /// vertices and `max_indices` indices that will be rewritten often, with
    /// the GL calls that fill it with zeros.
    pub fn new_dynamic(
        handle: u32,
        vertex_buffer: u32,
        index_buffer: u32,
        max_vertices: usize,
        max_indices: usize,
    ) -> (r: (VertexBuffer, Vec<GlCommand>))
        requires
            max_vertices * VERTEX_STRIDE <= usize::MAX,
            max_indices * INDEX_BYTES <= usize::MAX,
        ensures
            r.0.vertex_array() == handle,
            r.0.vertices() == vertex_buffer,
            r.0.indices() == index_buffer,
            r.1@ == setup_commands(
                r.0,
                DataSource::Zeros { bytes: (max_vertices * VERTEX_STRIDE) as usize },
                DataSource::Zeros { bytes: (max_indices * INDEX_BYTES) as usize },
                DYNAMIC_DRAW,
            ),
    {
        let buffer = VertexBuffer { handle, vertex_buffer, index_buffer };
        let commands = buffer.setup(
            DataSource::Zeros { bytes: max_vertices * (VERTEX_STRIDE as usize) },
            DataSource::Zeros { bytes: max_indices * (INDEX_BYTES as usize) },
            DYNAMIC_DRAW,
        );
        (buffer, commands)
    }

    /// The GL name of the vertex array object.
    pub fn handle(&self) -> (handle: u32)
        ensures
            handle == self.vertex_array(),
    {
        self.handle
    }

    /// The GL name of the buffer of vertices.
    pub fn vertex_buffer(&self) -> (buffer: u32)
        ensures
            buffer == self.vertices(),
    {
        self.vertex_buffer
    }

    /// The GL name of the buffer of indices.
    pub fn index_buffer(&self) -> (buffer: u32)
        ensures
            buffer == self.indices(),
    {
        self.index_buffer
    }

    /// What the device is to delete when the vertex buffer is no longer
    /// used: its vertex array.
    pub fn destroy(&self) -> (resource: Destroy)
        ensures
            resource == Destroy::VertexArray(self.vertex_array()),
    {
        Destroy::VertexArray(self.handle)
    }
}

} // verus!
