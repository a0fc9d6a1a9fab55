//! A sprite that is drawn on its own: a rectangle with a vertex array of
//! its four corners, and the texture to draw it with.

use crate::gl::GlCommand;
use crate::texture::Texture;
use crate::vertex::{Vertex, VertexBuffer};
use vstd::prelude::*;

verus! {

/// Corner `k` of the rectangle at `(x, y)` of size `width` by `height`,
/// counted from the upper left over the upper right and the lower right to
/// the lower left. The corners span the whole texture, and are opaque white.
pub open spec fn quad_corner(x: i32, y: i32, width: u32, height: u32, k: int) -> Vertex {
    let right = k == 1 || k == 2;
    let low = k == 2 || k == 3;
    Vertex {
        position: [
            (x + if right {
                width as int
            } else {
                0
            }) as i64,
            (y + if low {
                height as int
            } else {
                0
            }) as i64,
        ],
        texel: [
            if right {
                1u32
            } else {
                0u32
            },
            if low {
                1u32
            } else {
                0u32
            },
        ],
        extent: [1u32, 1u32],
        color: [255u8, 255u8, 255u8, 255u8],
    }
}

/// What a sprite is made with: the sprite, the vertices and indices of its
/// rectangle, and the GL calls that put them into its vertex array.
pub struct SpriteParts {
    pub sprite: Sprite,
    pub vertices: Vec<Vertex>,
    pub indices: Vec<u16>,
    pub commands: Vec<GlCommand>,
}

/// Basically a drawable rectangle and texture.
#[derive(Debug, Clone, Copy, PartialEq, Eq)]
pub struct Sprite {
    pos: [i32; 2],
    size: [u32; 2],
    vertex_buffer: VertexBuffer,
    texture: Option<Texture>,
}

impl Sprite {
    /// Position that the sprite keeps; its place on screen is in its
    /// vertices.
    pub closed spec fn position(self) -> [i32; 2] {
        self.pos
    }

    /// Width and height in pixels.
    pub closed spec fn extent(self) -> [u32; 2] {
        self.size
    }

    /// The vertex array of the sprite's rectangle.
    pub closed spec fn buffer(self) -> VertexBuffer {
        self.vertex_buffer
    }

    /// The texture, if one was set.
    pub closed spec fn image(self) -> Option<Texture> {
        self.texture
    }

    /// The GL name of the texture, if one was set.
    pub open spec fn image_handle(self) -> Option<u32> {
        match self.image() {
            Some(texture) => Some(texture.raw()),
            None => None,
        }
    }

    /// A sprite without a texture for the rectangle at `(x, y)` of the
    /// given size. Its vertex array, of the freshly created GL names
    /// `handle`, `vertex_buffer` and `index_buffer`, holds the four corners
    /// of the rectangle and the indices of its two triangles, counter-
    /// clockwise.
    pub fn with_size(
        handle: u32,
        vertex_buffer: u32,
        index_buffer: u32,
        x: i32,
        y: i32,
        width: u32,
        height: u32,
    ) -> (parts: SpriteParts)
        ensures
            parts.sprite.position() == [0i32, 0i32],
            parts.sprite.extent() == [width, height],
            parts.sprite.image() is None,
            parts.sprite.buffer().vertex_array() == handle,
            parts.sprite.buffer().vertices() == vertex_buffer,
            parts.sprite.buffer().indices() == index_buffer,
            parts.vertices@ == Seq::new(4, |k: int| quad_corner(x, y, width, height, k)),
            parts.indices@ == seq![0u16, 1u16, 2u16, 0u16, 2u16, 3u16],
            parts.commands@ == crate::vertex::setup_commands(
                parts.sprite.buffer(),
                crate::gl::DataSource::Vertices { first: 0, count: 4 },
                crate::gl::DataSource::Indices { first: 0, count: 6 },
                crate::gl::STATIC_DRAW,
            ),
    {
        let color: [u8; 4] = [255, 255, 255, 255];
        let left: i64 = x as i64;
        let top: i64 = y as i64;
        let w: i64 = width as i64;
        let h: i64 = height as i64;
        let mut vertices: Vec<Vertex> = Vec::new();
        vertices.push(Vertex { position: [left, top], texel: [0, 0], extent: [1, 1], color });
        vertices.push(Vertex { position: [left + w, top], texel: [1, 0], extent: [1, 1], color });
        vertices.push(
            Vertex { position: [left + w, top + h], texel: [1, 1], extent: [1, 1], color },
        );
        vertices.push(Vertex { position: [left, top + h], texel: [0, 1], extent: [1, 1], color });
        // Counter-clockwise
        let mut indices: Vec<u16> = Vec::new();
        indices.push(0);
        indices.push(1);
        indices.push(2);
        indices.push(0);
        indices.push(2);
        indices.push(3);
        let (buffer, commands) = VertexBuffer::new_static(
            handle,
            vertex_buffer,
            index_buffer,
            vertices.as_slice(),
            indices.as_slice(),
        );
        proof {
            assert(vertices@ =~= Seq::new(4, |k: int| quad_corner(x, y, width, height, k)));
            assert(indices@ =~= seq![0u16, 1u16, 2u16, 0u16, 2u16, 3u16]);
        }
        SpriteParts {
            sprite: Sprite {
                pos: [0, 0],
                size: [width, height],
                vertex_buffer: buffer,
                texture: None,
            },
            vertices,
            indices,
            commands,
        }
    }

    pub fn set_texture(&mut self, texture: Texture)
        ensures
            final(self).image() == Some(texture),
            final(self).position() == old(self).position(),
            final(self).extent() == old(self).extent(),
            final(self).buffer() == old(self).buffer(),
    {
        self.texture = Some(texture);
    }

    /// The GL name of the texture, if one was set.
    pub fn texture_handle(&self) -> (handle: Option<u32>)
        ensures
            handle == self.image_handle(),
    {
        match self.texture {
            Some(texture) => Some(texture.raw_handle()),
            None => None,
        }
    }

    /// The vertex array of the sprite's rectangle.
    pub fn vertex_buffer(&self) -> (buffer: VertexBuffer)
        ensures
            buffer == self.buffer(),
    {
        self.vertex_buffer
    }
}

} // verus!
