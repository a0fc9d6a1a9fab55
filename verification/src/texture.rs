//! Textures in video memory, and views into them.
//!
//! A [`Texture`] names a GPU texture and a rectangle of it. Views of one
//! texture share its storage; [`TextureHandle`] counts them, and says when
//! the last one is gone and the storage is to be deleted.

use crate::device::{Destroy, GraphicDevice};
use crate::errors::{Error, Result};
use crate::gl::{
    GlCommand, CLAMP_TO_EDGE, NEAREST, RGBA, RGBA8, TEXTURE_2D, TEXTURE_MAG_FILTER,
    TEXTURE_MIN_FILTER, TEXTURE_WRAP_S, TEXTURE_WRAP_T, UNSIGNED_BYTE,
};
use crate::rect::Rect;
use vstd::prelude::*;

verus! {

/// A size that a texture can be allocated with: no dimension is zero, and
/// both are powers of two unless the device takes other sizes.
pub open spec fn allocatable(npot: bool, width: u32, height: u32) -> bool {
    &&& width != 0
    &&& height != 0
    &&& (npot || (power_of_two(width) && power_of_two(height)))
}

/// The bit test for a power of two.
pub open spec fn power_of_two(n: u32) -> bool {
    n != 0 && (n & ((n - 1) as u32)) == 0
}

/// Number of bytes of a `width` by `height` image of four bytes per texel.
pub open spec fn image_bytes(width: u32, height: u32) -> int {
    4 * width * height
}

/// The GL calls that allocate the storage of a new texture and set its
/// sampling: nearest filters, clamped to the edge on both axes.
pub open spec fn allocation_commands(handle: u32, width: u32, height: u32) -> Seq<GlCommand> {
    seq![
        GlCommand::BindTexture { target: TEXTURE_2D, texture: Some(handle) },
        GlCommand::TexImage2d {
            target: TEXTURE_2D,
            level: 0,
            internal_format: RGBA8,
            width,
            height,
            border: 0,
            format: RGBA,
            ty: UNSIGNED_BYTE,
        },
        GlCommand::CheckError,
        GlCommand::TexParameter {
            target: TEXTURE_2D,
            parameter: TEXTURE_MIN_FILTER,
            value: NEAREST,
        },
        GlCommand::TexParameter {
            target: TEXTURE_2D,
            parameter: TEXTURE_MAG_FILTER,
            value: NEAREST,
        },
        GlCommand::TexParameter {
            target: TEXTURE_2D,
            parameter: TEXTURE_WRAP_S,
            value: CLAMP_TO_EDGE,
        },
        GlCommand::TexParameter {
            target: TEXTURE_2D,
            parameter: TEXTURE_WRAP_T,
            value: CLAMP_TO_EDGE,
        },
        GlCommand::BindTexture { target: TEXTURE_2D, texture: None },
    ]
}

/// The GL calls that write image data into the region at `pos` of size
/// `size` of the texture `handle`, and then bind again the texture that was
/// bound before.
pub open spec fn upload_commands(
    handle: u32,
    saved: u32,
    pos: [u32; 2],
    size: [u32; 2],
) -> Seq<GlCommand> {
    seq![
        GlCommand::BindTexture { target: TEXTURE_2D, texture: Some(handle) },
        GlCommand::TexSubImage2d {
            target: TEXTURE_2D,
            level: 0,
            x_offset: pos[0],
            y_offset: pos[1],
            width: size[0],
            height: size[1],
            format: RGBA,
            ty: UNSIGNED_BYTE,
        },
        GlCommand::BindTexture { target: TEXTURE_2D, texture: Some(saved) },
        GlCommand::CheckError,
    ]
}

/// Handle to a texture located in video memory, with the rectangle of it
/// that this value stands for.
#[derive(Debug, Clone, Copy, PartialEq, Eq)]
pub struct Texture {
    texture: u32,
    orig_size: [u32; 2],
    rect: Rect,
}

impl Texture {
    /// The GL name of the texture.
    pub closed spec fn raw(self) -> u32 {
        self.texture
    }

    /// Size in texels of the whole texture in video memory.
    pub closed spec fn allocation(self) -> [u32; 2] {
        self.orig_size
    }

    /// The part of the texture that this value stands for.
    pub closed spec fn area(self) -> Rect {
        self.rect
    }

    /// The view is not empty and lies within the texture.
    pub open spec fn wf(self) -> bool {
        &&& self.area().size[0] > 0
        &&& self.area().size[1] > 0
        &&& self.area().pos[0] + self.area().size[0] <= self.allocation()[0]
        &&& self.area().pos[1] + self.area().size[1] <= self.allocation()[1]
    }

    #[verifier::type_invariant]
    spec fn inv(self) -> bool {
        self.wf()
    }

    /// The texture for freshly created GL name `handle`, as a view of all of
    /// it, with the GL calls that allocate its storage; or
    /// `InvalidTextureSize` for a size that cannot be allocated.
    pub fn new(device: &GraphicDevice, handle: u32, width: u32, height: u32) -> (r: Result<
        (Texture, Vec<GlCommand>),
    >)
        ensures
            match r {
                Ok((texture, commands)) => {
                    &&& allocatable(Self::npot(device), width, height)
                    &&& texture.wf()
                    &&& texture.raw() == handle
                    &&& texture.allocation() == [width, height]
                    &&& texture.area() == (Rect { pos: [0u32, 0u32], size: [width, height] })
                    &&& commands@ == allocation_commands(handle, width, height)
                },
                Err(e) => {
                    &&& !allocatable(Self::npot(device), width, height)
                    &&& e == Error::InvalidTextureSize(width, height)
                },
            },
    {
        match Self::check_size(device, width, height) {
            Err(e) => {
                return Err(e);
            },
            Ok(_) => {},
        }
        let mut commands: Vec<GlCommand> = Vec::new();
        commands.push(GlCommand::BindTexture { target: TEXTURE_2D, texture: Some(handle) });
        commands.push(
            GlCommand::TexImage2d {
                target: TEXTURE_2D,
                level: 0,
                internal_format: RGBA8,
                width,
                height,
                border: 0,
                format: RGBA,
                ty: UNSIGNED_BYTE,
            },
        );
        commands.push(GlCommand::CheckError);
        commands.push(
            GlCommand::TexParameter {
                target: TEXTURE_2D,
                parameter: TEXTURE_MIN_FILTER,
                value: NEAREST,
            },
        );
        commands.push(
            GlCommand::TexParameter {
                target: TEXTURE_2D,
                parameter: TEXTURE_MAG_FILTER,
                value: NEAREST,
            },
        );
        commands.push(
            GlCommand::TexParameter {
                target: TEXTURE_2D,
                parameter: TEXTURE_WRAP_S,
                value: CLAMP_TO_EDGE,
            },
        );
        commands.push(
            GlCommand::TexParameter {
                target: TEXTURE_2D,
                parameter: TEXTURE_WRAP_T,
                value: CLAMP_TO_EDGE,
            },
        );
        commands.push(GlCommand::BindTexture { target: TEXTURE_2D, texture: None });
        proof {
            assert(commands@ =~= allocation_commands(handle, width, height));
        }
        let texture = Texture {
            texture: handle,
            orig_size: [width, height],
            rect: Rect { pos: [0, 0], size: [width, height] },
        };
        Ok((texture, commands))
    }

    /// Create a sub texture from the given texture view.
    ///
    /// Does not allocate new texture space in video memory. Instead creates
    /// a view into the same memory. `pos` is a position in the texture, not
    /// in the view.
    ///
    /// # Errors
    ///
    /// Returns `InvalidSubTexture` if the given position and size do not lie
    /// within this view, else `InvalidTextureSize` if any given dimension is
    /// 0.
    pub fn new_sub(&self, pos: [u32; 2], size: [u32; 2]) -> (r: Result<Texture>)
        ensures
            self.wf(),
            !self.area().encloses(Rect { pos, size }) ==> r == Err::<Texture, Error>(
                Error::InvalidSubTexture { source: self.area(), target: Rect { pos, size } },
            ),
            self.area().encloses(Rect { pos, size }) && (size[0] == 0 || size[1] == 0) ==> r
                == Err::<Texture, Error>(Error::InvalidTextureSize(size[0], size[1])),
            self.area().encloses(Rect { pos, size }) && size[0] != 0 && size[1] != 0 ==> {
                &&& r is Ok
                &&& r->Ok_0.wf()
                &&& r->Ok_0.raw() == self.raw()
                &&& r->Ok_0.allocation() == self.allocation()
                &&& r->Ok_0.area() == (Rect { pos, size })
            },
            pos[0] + size[0] <= self.area().pos[0] + self.area().size[0] && pos[1] + size[1]
                <= self.area().pos[1] + self.area().size[1] ==> ((r matches Err(
                Error::InvalidSubTexture { .. },
            )) <==> !self.area().fits(Rect { pos, size })),
    {
        proof {
            use_type_invariant(self);
        }
        let target_rect = Rect { pos, size };
        if !self.rect.contains(&target_rect) {
            return Err(Error::InvalidSubTexture { source: self.rect, target: target_rect });
        }
        match Self::validate_size(size[0], size[1]) {
            Err(e) => {
                return Err(e);
            },
            Ok(_) => {},
        }
        Ok(Texture { texture: self.texture, orig_size: self.orig_size, rect: target_rect })
    }

    /// `InvalidTextureSize` for a size that the device cannot allocate a
    /// texture with. A caller that creates the GL name of a texture asks
    /// this first, so that no name is created for a size that is refused.
    pub fn check_size(device: &GraphicDevice, width: u32, height: u32) -> (r: Result<()>)
        ensures
            allocatable(Self::npot(device), width, height) ==> r is Ok,
            !allocatable(Self::npot(device), width, height) ==> r == Err::<(), Error>(
                Error::InvalidTextureSize(width, height),
            ),
    {
        // Upfront validations.
        match Self::validate_size(width, height) {
            Err(e) => {
                return Err(e);
            },
            Ok(_) => {},
        }
        // When non-power-of-two textures are not available, several
        // bad things can happen from degraded performance to OpenGL
        // errors.
        if !Self::is_npot_available(device) {
            if !Self::is_power_of_two(width) || !Self::is_power_of_two(height) {
                return Err(Error::InvalidTextureSize(width, height));
            }
        }
        Ok(())
    }

    /// `InvalidTextureSize` for a size with a dimension of zero.
    pub fn validate_size(width: u32, height: u32) -> (r: Result<()>)
        ensures
            width == 0 || height == 0 ==> r == Err::<(), Error>(
                Error::InvalidTextureSize(width, height),
            ),
            width != 0 && height != 0 ==> r is Ok,
    {
        if width == 0 || height == 0 {
            return Err(Error::InvalidTextureSize(width, height));
        }
        Ok(())
    }

    pub fn is_power_of_two(n: u32) -> (r: bool)
        ensures
            r == power_of_two(n),
    {
        n != 0 && (n & (n - 1)) == 0
    }

    /// The device takes textures whose dimensions are no powers of two.
    pub open spec fn npot(device: &GraphicDevice) -> bool {
        device.extensions().contains("GL_ARB_texture_non_power_of_two"@)
    }

    /// Queries the device support for non-power-of-two-textures.
    pub fn is_npot_available(device: &GraphicDevice) -> (r: bool)
        ensures
            r == Self::npot(device),
    {
        device.has_extension("GL_ARB_texture_non_power_of_two")
    }

    pub fn raw_handle(&self) -> (handle: u32)
        ensures
            handle == self.raw(),
    {
        self.texture
    }

    /// Size in texels of the whole texture in video memory.
    pub fn orig_size(&self) -> (size: [u32; 2])
        ensures
            size == self.allocation(),
            self.wf(),
    {
        proof {
            use_type_invariant(self);
        }
        self.orig_size
    }

    /// The part of the texture that this value stands for.
    pub fn rect(&self) -> (rect: Rect)
        ensures
            rect == self.area(),
            self.wf(),
    {
        proof {
            use_type_invariant(self);
        }
        self.rect
    }

    /// The GL calls that replace the image of the whole texture.
    pub fn update_data(&self, save: &TextureSave, data: &[u8]) -> (r: Result<Vec<GlCommand>>)
        requires
            image_bytes(self.allocation()[0], self.allocation()[1]) <= usize::MAX,
        ensures
            data@.len() == image_bytes(self.allocation()[0], self.allocation()[1]) ==> r is Ok
                && r->Ok_0@ == upload_commands(
                self.raw(),
                save.saved(),
                [0u32, 0u32],
                self.allocation(),
            ),
            data@.len() != image_bytes(self.allocation()[0], self.allocation()[1]) ==> r
                == Err::<Vec<GlCommand>, Error>(
                Error::InvalidImageData {
                    expected: image_bytes(self.allocation()[0], self.allocation()[1]) as usize,
                    actual: data@.len() as usize,
                },
            ),
    {
        self.update_sub_data(save, [0, 0], self.orig_size, data)
    }

    /// The GL calls that upload image data to the region at `pos` of size
    /// `size` of the texture's storage, leaving bound the texture that
    /// `save` holds; or `InvalidImageData` where the data are not four bytes
    /// for each texel of the region.
    pub fn update_sub_data(
        &self,
        save: &TextureSave,
        pos: [u32; 2],
        size: [u32; 2],
        data: &[u8],
    ) -> (r: Result<Vec<GlCommand>>)
        requires
            image_bytes(size[0], size[1]) <= usize::MAX,
        ensures
            data@.len() == image_bytes(size[0], size[1]) ==> r is Ok && r->Ok_0@
                == upload_commands(self.raw(), save.saved(), pos, size),
            data@.len() != image_bytes(size[0], size[1]) ==> r == Err::<Vec<GlCommand>, Error>(
                Error::InvalidImageData {
                    expected: image_bytes(size[0], size[1]) as usize,
                    actual: data@.len() as usize,
                },
            ),
    {
        let expected_len = expected_bytes(size[0], size[1]);
        if data.len() != expected_len {
            return Err(Error::InvalidImageData { expected: expected_len, actual: data.len() });
        }
        let mut commands: Vec<GlCommand> = Vec::new();
        commands.push(GlCommand::BindTexture { target: TEXTURE_2D, texture: Some(self.texture) });
        commands.push(
            GlCommand::TexSubImage2d {
                target: TEXTURE_2D,
                level: 0,
                x_offset: pos[0],
                y_offset: pos[1],
                width: size[0],
                height: size[1],
                format: RGBA,
                ty: UNSIGNED_BYTE,
            },
        );
        commands.push(save.restore());
        commands.push(GlCommand::CheckError);
        proof {
            assert(commands@ =~= upload_commands(self.raw(), save.saved(), pos, size));
        }
        Ok(commands)
    }

    /// Returns the number of bytes contained in the texture's storage.
    pub fn data_len(&self) -> (len: usize)
        requires
            image_bytes(self.allocation()[0], self.allocation()[1]) <= usize::MAX,
        ensures
            len == image_bytes(self.allocation()[0], self.allocation()[1]),
    {
        expected_bytes(self.orig_size[0], self.orig_size[1])
    }
}

/// Number of bytes of a `width` by `height` image of four bytes per texel.
pub fn expected_bytes(width: u32, height: u32) -> (len: usize)
    requires
        image_bytes(width, height) <= usize::MAX,
    ensures
        len == image_bytes(width, height),
{
    proof {
        assert(width * height <= 4 * width * height) by (nonlinear_arith);
        assert(4 * width * height == 4 * (width * height)) by (nonlinear_arith);
    }
    width as usize * height as usize * 4
}

/// The texture that was bound when an upload began, kept so that the upload
/// can bind it again when it is done.
#[derive(Debug, Clone, Copy, PartialEq, Eq)]
pub struct TextureSave {
    texture_handle: u32,
}

impl TextureSave {
    /// The GL name of the texture that was bound.
    pub closed spec fn saved(self) -> u32 {
        self.texture_handle
    }

    /// Keeps the binding that `TEXTURE_BINDING_2D` was read as.
    pub fn new(binding: u32) -> (save: TextureSave)
        ensures
            save.saved() == binding,
    {
        TextureSave { texture_handle: binding }
    }

    /// The GL call that binds the saved texture again.
    pub fn restore(&self) -> (command: GlCommand)
        ensures
            command == (GlCommand::BindTexture { target: TEXTURE_2D, texture: Some(self.saved()) }),
    {
        GlCommand::BindTexture { target: TEXTURE_2D, texture: Some(self.texture_handle) }
    }
}

/// Owner of a texture's storage in video memory, shared by all views of the
/// texture. It counts the views, and when the last one is released it says
/// that the storage is to be destroyed.
#[derive(Debug, PartialEq, Eq)]
pub struct TextureHandle {
    handle: u32,
    size: [u32; 2],
    views: usize,
}

impl TextureHandle {
    /// The GL name of the texture.
    pub closed spec fn raw(self) -> u32 {
        self.handle
    }

    /// Size in texels of the storage.
    pub closed spec fn size(self) -> [u32; 2] {
        self.size
    }

    /// Number of views that share the storage.
    pub closed spec fn views(self) -> nat {
        self.views as nat
    }

    /// The handle after one more view shares it.
    pub open spec fn shared(self, after: TextureHandle) -> bool {
        &&& after.raw() == self.raw()
        &&& after.size() == self.size()
        &&& after.views() == self.views() + 1
    }

    /// The handle after a view was released, and what is queued for
    /// deletion then: the texture, when that view was the last.
    pub open spec fn released(self, after: TextureHandle, destroy: Option<Destroy>) -> bool {
        &&& after.raw() == self.raw()
        &&& after.size() == self.size()
        &&& if self.views() == 0 {
            after.views() == 0 && destroy is None
        } else {
            after.views() == self.views() - 1 && destroy == if self.views() == 1 {
                Some(Destroy::Texture(self.raw()))
            } else {
                None
            }
        }
    }

    /// The owner of the storage of `texture`, with that texture as its one
    /// view.
    pub fn new(texture: &Texture) -> (handle: TextureHandle)
        ensures
            handle.raw() == texture.raw(),
            handle.size() == texture.allocation(),
            handle.views() == 1,
    {
        TextureHandle { handle: texture.raw_handle(), size: texture.orig_size(), views: 1 }
    }

    pub fn raw_handle(&self) -> (handle: u32)
        ensures
            handle == self.raw(),
    {
        self.handle
    }

    /// Number of views that share the storage.
    pub fn view_count(&self) -> (views: usize)
        ensures
            views == self.views(),
    {
        self.views
    }

    /// Counts one more view of the texture. Returns whether it could be
    /// counted; it cannot when the counter is at its limit.
    pub fn share(&mut self) -> (counted: bool)
        ensures
            counted == (old(self).views() < usize::MAX),
            counted ==> old(self).shared(*final(self)),
            !counted ==> *final(self) == *old(self),
    {
        if self.views < usize::MAX {
            self.views = self.views + 1;
            true
        } else {
            false
        }
    }

    /// Releases one view of the texture. When it was the last, returns the
    /// texture for the device's queue of objects to delete.
    pub fn release(&mut self) -> (destroy: Option<Destroy>)
        ensures
            old(self).released(*final(self), destroy),
    {
        if self.views == 0 {
            None
        } else {
            self.views = self.views - 1;
            if self.views == 0 {
                Some(Destroy::Texture(self.handle))
            } else {
                None
            }
        }
    }
}

/// A texture's storage is queued for deletion when its last view is
/// released, and not before: of two views that share it, the release of the
/// first queues nothing, and the release of the second queues the texture.
pub proof fn lemma_last_release_destroys(
    owner: TextureHandle,
    shared: TextureHandle,
    first_destroy: Option<Destroy>,
    after_first: TextureHandle,
    second_destroy: Option<Destroy>,
    after_second: TextureHandle,
)
    requires
        owner.views() == 1,
        owner.shared(shared),
        shared.released(after_first, first_destroy),
        after_first.released(after_second, second_destroy),
    ensures
        shared.raw() == owner.raw(),
        first_destroy is None,
        second_destroy == Some(Destroy::Texture(owner.raw())),
        after_second.views() == 0,
{
}

/// The bit test holds of the thirty-two powers of two that a `u32` can
/// hold, and of no other number.
pub proof fn lemma_power_of_two(n: u32)
    ensures
        power_of_two(n) <==> exists|k: u32| k < 32 && n == 1u32 << k,
{
    assert(power_of_two(n) <==> exists|k: u32| k < 32 && n == 1u32 << k) by {
        if power_of_two(n) {
            let k = top_bit(n);
            assert(k < 32 && n == 1u32 << k) by (bit_vector)
                requires
                    n != 0 && (n & ((n - 1) as u32)) == 0,
                    k == if n & 0xFFFF_0000u32 != 0 {
                        16u32
                    } else {
                        0u32
                    } + if n & 0xFF00_FF00u32 != 0 {
                        8u32
                    } else {
                        0u32
                    } + if n & 0xF0F0_F0F0u32 != 0 {
                        4u32
                    } else {
                        0u32
                    } + if n & 0xCCCC_CCCCu32 != 0 {
                        2u32
                    } else {
                        0u32
                    } + if n & 0xAAAA_AAAAu32 != 0 {
                        1u32
                    } else {
                        0u32
                    },
            ;
        }
        if exists|k: u32| k < 32 && n == 1u32 << k {
            let k = choose|k: u32| k < 32 && n == 1u32 << k;
            assert(n != 0 && (n & ((n - 1) as u32)) == 0) by (bit_vector)
                requires
                    k < 32 && n == 1u32 << k,
            ;
        }
    }
}

/// Position of the set bit of a number with one set bit.
spec fn top_bit(n: u32) -> u32 {
    (if n & 0xFFFF_0000u32 != 0 {
        16u32
    } else {
        0u32
    } + if n & 0xFF00_FF00u32 != 0 {
        8u32
    } else {
        0u32
    } + if n & 0xF0F0_F0F0u32 != 0 {
        4u32
    } else {
        0u32
    } + if n & 0xCCCC_CCCCu32 != 0 {
        2u32
    } else {
        0u32
    } + if n & 0xAAAA_AAAAu32 != 0 {
        1u32
    } else {
        0u32
    }) as u32
}

} // verus!
