//! The OpenGL calls that the renderer issues, as plain values.
//!
//! Nothing here touches a GL context. The operations of this crate decide
//! which calls are made, in which order and with which arguments, and hand
//! them out as lists of [`GlCommand`]; whoever owns the context carries them
//! out one by one.

use vstd::prelude::*;

verus! {

pub const NO_ERROR: u32 = 0;

pub const TRIANGLES: u32 = 0x0004;

pub const CCW: u32 = 0x0901;

pub const TEXTURE_2D: u32 = 0x0DE1;

pub const UNSIGNED_BYTE: u32 = 0x1401;

pub const UNSIGNED_SHORT: u32 = 0x1403;

pub const FLOAT: u32 = 0x1406;

pub const RGBA: u32 = 0x1908;

pub const NEAREST: u32 = 0x2600;

pub const TEXTURE_MAG_FILTER: u32 = 0x2800;

pub const TEXTURE_MIN_FILTER: u32 = 0x2801;

pub const TEXTURE_WRAP_S: u32 = 0x2802;

pub const TEXTURE_WRAP_T: u32 = 0x2803;

pub const COLOR_BUFFER_BIT: u32 = 0x4000;

pub const RGBA8: u32 = 0x8058;

pub const CLAMP_TO_EDGE: u32 = 0x812F;

pub const TEXTURE0: u32 = 0x84C0;

pub const ARRAY_BUFFER: u32 = 0x8892;

pub const ELEMENT_ARRAY_BUFFER: u32 = 0x8893;

pub const STATIC_DRAW: u32 = 0x88E4;

pub const DYNAMIC_DRAW: u32 = 0x88E8;

pub const FRAGMENT_SHADER: u32 = 0x8B30;

pub const VERTEX_SHADER: u32 = 0x8B31;

/// Where the bytes of a buffer upload come from.
#[derive(Debug, Clone, Copy, PartialEq, Eq)]
pub enum DataSource {
    /// `count` vertices, starting at vertex `first` of the vertices that
    /// come with the commands.
    Vertices { first: usize, count: usize },
    /// `count` indices, starting at index `first` of the indices that come
    /// with the commands.
    Indices { first: usize, count: usize },
    /// `bytes` bytes of zero.
    Zeros { bytes: usize },
}

/// The two stages of a shader program.
#[derive(Debug, Clone, Copy, PartialEq, Eq)]
pub enum ShaderStage {
    Vertex,
    Fragment,
}

/// One call into the GL backend. Object handles, enumerants, sizes and
/// offsets are the numbers that the call takes.
#[derive(Debug, Clone, Copy, PartialEq, Eq)]
pub enum GlCommand {
    FrontFace { mode: u32 },
    Viewport { x: i32, y: i32, width: i32, height: i32 },
    /// Sets the clear colour; each channel is the bit pattern of a 32-bit
    /// float.
    ClearColor { rgba: [u32; 4] },
    Clear { mask: u32 },
    UseProgram(Option<u32>),
    /// Sets a uniform of two floats to the two given whole numbers.
    Uniform2 { location: u32, x: u32, y: u32 },
    BindVertexArray { vertex_array: Option<u32> },
    ActiveTexture { unit: u32 },
    BindTexture { target: u32, texture: Option<u32> },
    /// Allocates storage for a texture image, without data.
    TexImage2d {
        target: u32,
        level: u32,
        internal_format: u32,
        width: u32,
        height: u32,
        border: u32,
        format: u32,
        ty: u32,
    },
    /// Writes the image data that come with the commands into a region of
    /// the bound texture.
    TexSubImage2d {
        target: u32,
        level: u32,
        x_offset: u32,
        y_offset: u32,
        width: u32,
        height: u32,
        format: u32,
        ty: u32,
    },
    TexParameter { target: u32, parameter: u32, value: u32 },
    BindBuffer { target: u32, buffer: Option<u32> },
    BufferData { target: u32, source: DataSource, usage: u32 },
    BufferSubData { target: u32, offset: u32, source: DataSource },
    EnableVertexAttribArray { index: u32 },
    /// Describes a float attribute of the bound vertex buffer.
    VertexAttribPointer {
        index: u32,
        size: u32,
        data_type: u32,
        normalized: bool,
        stride: u32,
        offset: u32,
    },
    DrawElements { mode: u32, count: usize, element_type: u32, offset: u32 },
    /// Sets the source of a shader to the source text of the given stage.
    ShaderSource { shader: u32, stage: ShaderStage },
    CompileShader { shader: u32 },
    AttachShader { program: u32, shader: u32 },
    LinkProgram { program: u32 },
    DetachShader { program: u32, shader: u32 },
    DeleteShader { shader: u32 },
    DeleteTexture(u32),
    DeleteProgram(u32),
    DeleteVertexArray(u32),
    /// Reads the GL error flag; a set flag ends the operation with
    /// `Error::OpenGl`.
    CheckError,
    /// Reads the GL error flag; a set flag is a programming error.
    AssertNoError,
}

} // verus!
