//! Core of a 2D sprite renderer over an OpenGL 4 core-profile context.
//!
//! The crate decides; it does not draw. Every operation that concerns the
//! GPU hands out the GL calls to make as a list of [`gl::GlCommand`] values,
//! and takes what GL reported back as plain arguments. Whoever holds the GL
//! context makes the calls in order.
//!
//! - [`device`]: the state beside the GL context, and the queue of GPU
//!   objects that wait for their deletion.
//! - [`texture`]: textures, views into them, and the count of the views
//!   that share one texture.
//! - [`packer`]: the guillotine bin-packer that hands out slots of a
//!   rectangular region.
//! - [`texture_pack`]: atlases, each a texture with the packer of its slots.
//! - [`sprite_batch`]: sprites recorded for a frame and drawn with as few
//!   draw calls as their textures allow.
//! - [`vertex`], [`shader`], [`sprite`]: vertex arrays, shader programs, and
//!   sprites that are drawn on their own.
//! - [`rect`], [`errors`], [`text`], [`gl`]: rectangles, errors, numbers as
//!   text, and the GL calls as values.

pub mod device;
pub mod errors;
pub mod gl;
pub mod packer;
pub mod rect;
pub mod shader;
pub mod sprite;
pub mod sprite_batch;
pub mod text;
pub mod texture;
pub mod texture_pack;
pub mod vertex;
