//! Texture atlases: many small images packed into few textures.
//!
//! A pack holds textures, each with a packer that hands out slots of it. An
//! image is placed in the first texture that has a slot for it, with a
//! margin of `padding` texels on all sides, and comes back as a view of that
//! texture. Where no texture has a slot, the pack asks for another texture.

use crate::device::GraphicDevice;
use crate::errors::{Error, Result};
use crate::gl::GlCommand;
use crate::packer::{find_slot, split, Packer, RectNode, Rectangle};
use crate::rect::Rect;
use crate::texture::{allocatable, allocation_commands, image_bytes, upload_commands};
use crate::texture::{expected_bytes, Texture, TextureSave};
use vstd::prelude::*;

verus! {

/// How an image was placed.
pub enum Placement {
    /// The image has a slot. `view` is the part of the atlas that holds the
    /// image, and `upload` are the GL calls that write the image there.
    Placed { view: Texture, upload: Vec<GlCommand> },
    /// No atlas has a slot for the image. A texture of this size is to be
    /// created and handed to `add_atlas`; after that the image can be added.
    Grow { width: u32, height: u32 },
}

/// A texture with the packer of its slots.
pub struct Atlas {
    pub texture: Texture,
    pub packer: Packer,
}

impl Atlas {
    /// The packer packs the whole texture, and the texture is a view of all
    /// of its storage.
    pub open spec fn wf(self) -> bool {
        &&& self.packer.wf()
        &&& self.texture.wf()
        &&& self.packer.extent() == self.texture.allocation()
        &&& self.texture.area() == (Rect { pos: [0u32, 0u32], size: self.texture.allocation() })
    }

    /// An atlas that has handed out nothing yet.
    pub open spec fn fresh(self) -> bool {
        &&& self.wf()
        &&& self.packer.nodes() == seq![
            RectNode::Leaf(Rectangle { pos: [0u32, 0u32], size: self.texture.allocation() }),
        ]
        &&& self.packer.slots() == Seq::<Rectangle>::empty()
    }
}

/// A dimension of an image with the margin on both of its sides.
pub open spec fn padded(dimension: u32, padding: u32) -> int {
    dimension + 2 * padding
}

/// Index of the first atlas, from `from` on, whose packer has a slot for a
/// rectangle of size `target`.
pub open spec fn first_fit(atlases: Seq<Atlas>, target: [u32; 2], from: int) -> Option<int>
    decreases
        (if from < atlases.len() {
            atlases.len() - from
        } else {
            0
        }),
{
    if from < 0 || from >= atlases.len() {
        None
    } else if find_slot(atlases[from].packer.nodes(), target, 0) is Some {
        Some(from)
    } else {
        first_fit(atlases, target, from + 1)
    }
}

/// Index of the atlas that takes an image of the given size with the given
/// margin. A padded size that is no 32-bit number fits nowhere.
pub open spec fn atlas_for(atlases: Seq<Atlas>, width: u32, height: u32, padding: u32) -> Option<
    int,
> {
    if padded(width, padding) > u32::MAX || padded(height, padding) > u32::MAX {
        None
    } else {
        first_fit(
            atlases,
            [padded(width, padding) as u32, padded(height, padding) as u32],
            0,
        )
    }
}

/// The smaller of a padded dimension and the default dimension.
pub open spec fn grown(dimension: u32, padding: u32) -> u32 {
    if padded(dimension, padding) < TexturePack::DEFAULT_DIM {
        padded(dimension, padding) as u32
    } else {
        TexturePack::DEFAULT_DIM
    }
}

/// Atlases that images are placed in, and the margin kept around each image.
pub struct TexturePack {
    /// Texture atlases that have space available for more textures.
    open: Vec<Atlas>,
    /// Full atlases.
    closed: Vec<Texture>,
    /// Minimum size of newly allocated textures.
    min_size: [u32; 2],
    padding: u32,
}

impl TexturePack {
    /// Default dimension, width or height, of each texture in texels.
    ///
    /// - OpenGL 4 requires support of at least 1024.
    /// - OpenGL ES 3 requires support of at least 2048;
    pub const DEFAULT_DIM: u32 = 1024;

    /// The atlases that images are placed in, oldest first.
    pub closed spec fn atlases(&self) -> Seq<Atlas> {
        self.open@
    }

    /// The atlases that were set aside as full.
    pub closed spec fn full(&self) -> Seq<Texture> {
        self.closed@
    }

    /// Size of the first atlas.
    pub closed spec fn min_size(&self) -> [u32; 2] {
        self.min_size
    }

    /// Margin in texels around each image.
    pub closed spec fn padding(&self) -> u32 {
        self.padding
    }

    /// Every atlas is well formed.
    pub open spec fn wf(&self) -> bool {
        forall|i: int| 0 <= i < self.atlases().len() ==> (#[trigger] self.atlases()[i]).wf()
    }

    /// A pack with one atlas of the default size, for the freshly created
    /// GL name `handle`; with the GL calls that allocate the atlas.
    pub fn new(device: &GraphicDevice, handle: u32) -> (r: Result<(TexturePack, Vec<GlCommand>)>)
        ensures
            Self::made(device, handle, TexturePack::DEFAULT_DIM, TexturePack::DEFAULT_DIM, r),
    {
        Self::with_size(device, handle, TexturePack::DEFAULT_DIM, TexturePack::DEFAULT_DIM)
    }

    /// What `with_size` returns: for a size that can be allocated, a pack of
    /// one fresh atlas of that size with a margin of one texel, and the GL
    /// calls that allocate the atlas; else `InvalidTextureSize`.
    pub open spec fn made(
        device: &GraphicDevice,
        handle: u32,
        width: u32,
        height: u32,
        r: Result<(TexturePack, Vec<GlCommand>)>,
    ) -> bool {
        match r {
            Ok((pack, commands)) => {
                &&& allocatable(Texture::npot(device), width, height)
                &&& pack.wf()
                &&& pack.atlases().len() == 1
                &&& pack.atlases()[0].fresh()
                &&& pack.atlases()[0].texture.raw() == handle
                &&& pack.atlases()[0].texture.allocation() == [width, height]
                &&& pack.full() == Seq::<Texture>::empty()
                &&& pack.min_size() == [width, height]
                &&& pack.padding() == 1
                &&& commands@ == allocation_commands(handle, width, height)
            },
            Err(e) => {
                &&& !allocatable(Texture::npot(device), width, height)
                &&& e == Error::InvalidTextureSize(width, height)
            },
        }
    }

    /// A pack with one atlas of the given size, for the freshly created GL
    /// name `handle`; with the GL calls that allocate the atlas.
    pub fn with_size(device: &GraphicDevice, handle: u32, width: u32, height: u32) -> (r: Result<
        (TexturePack, Vec<GlCommand>),
    >)
        ensures
            Self::made(device, handle, width, height, r),
    {
        match Texture::new(device, handle, width, height) {
            Err(e) => Err(e),
            Ok((texture, commands)) => {
                let mut open: Vec<Atlas> = Vec::new();
                open.push(Atlas { texture, packer: Packer::new(width, height) });
                let pack = TexturePack {
                    open,
                    closed: Vec::new(),
                    min_size: [width, height],
                    padding: 1,
                };
                Ok((pack, commands))
            },
        }
    }

    /// Number of atlases that images are placed in.
    pub fn atlas_count(&self) -> (count: usize)
        ensures
            count == self.atlases().len(),
    {
        self.open.len()
    }

    /// The texture of the atlas at `index`, if there is one.
    pub fn atlas_texture(&self, index: usize) -> (texture: Option<Texture>)
        ensures
            index < self.atlases().len() ==> texture == Some(self.atlases()[index as int].texture),
            index >= self.atlases().len() ==> texture is None,
    {
        if index < self.open.len() {
            Some(self.open[index].texture)
        } else {
            None
        }
    }

    /// Adds a fresh atlas of the given size after the others, for the
    /// freshly created GL name `handle`, and returns the GL calls that
    /// allocate it; or `InvalidTextureSize`, and the pack stays as it is.
    pub fn add_atlas(&mut self, device: &GraphicDevice, handle: u32, width: u32, height: u32) -> (r:
        Result<Vec<GlCommand>>)
        requires
            old(self).wf(),
        ensures
            final(self).wf(),
            final(self).full() == old(self).full(),
            final(self).min_size() == old(self).min_size(),
            final(self).padding() == old(self).padding(),
            match r {
                Ok(commands) => {
                    &&& allocatable(Texture::npot(device), width, height)
                    &&& commands@ == allocation_commands(handle, width, height)
                    &&& final(self).atlases().len() == old(self).atlases().len() + 1
                    &&& final(self).atlases().drop_last() == old(self).atlases()
                    &&& final(self).atlases().last().fresh()
                    &&& final(self).atlases().last().texture.raw() == handle
                    &&& final(self).atlases().last().texture.allocation() == [width, height]
                },
                Err(e) => {
                    &&& !allocatable(Texture::npot(device), width, height)
                    &&& e == Error::InvalidTextureSize(width, height)
                    &&& final(self).atlases() == old(self).atlases()
                },
            },
    {
        match Texture::new(device, handle, width, height) {
            Err(e) => Err(e),
            Ok((texture, commands)) => {
                self.open.push(Atlas { texture, packer: Packer::new(width, height) });
                proof {
                    assert(self.open@.drop_last() =~= old(self).open@);
                    assert forall|j: int| 0 <= j < self.atlases().len() implies (
                    #[trigger] self.atlases()[j]).wf() by {
                        if j < old(self).atlases().len() {
                            assert(self.atlases()[j] == old(self).atlases()[j]);
                        }
                    }
                }
                Ok(commands)
            },
        }
    }

    /// What `add_image_data` returns and leaves for an image whose size is
    /// not zero and whose data have the right length. Where an atlas takes
    /// the image, its packer has handed out a slot of the padded size, the
    /// view is that slot without its margin, and the GL calls upload the
    /// image there. Where none does, nothing changes and the pack asks for a
    /// texture of the padded size, or of the default dimension where that is
    /// smaller.
    pub open spec fn placed(
        before: Seq<Atlas>,
        after: Seq<Atlas>,
        padding: u32,
        saved: u32,
        width: u32,
        height: u32,
        r: Result<Placement>,
    ) -> bool {
        match atlas_for(before, width, height, padding) {
            Some(i) => {
                let target = [padded(width, padding) as u32, padded(height, padding) as u32];
                let atlas = before[i];
                let leaf = find_slot(atlas.packer.nodes(), target, 0)->Some_0;
                let slot = atlas.packer.nodes()[leaf]->Leaf_0.pos;
                let origin = [(slot[0] + padding) as u32, (slot[1] + padding) as u32];
                &&& r matches Ok(Placement::Placed { view, upload })
                &&& view.wf()
                &&& view.raw() == atlas.texture.raw()
                &&& view.allocation() == atlas.texture.allocation()
                &&& view.area() == (Rect { pos: origin, size: [width, height] })
                &&& upload@ == upload_commands(atlas.texture.raw(), saved, origin, [width, height])
                &&& after.len() == before.len()
                &&& forall|j: int| 0 <= j < before.len() && j != i ==> after[j] == before[j]
                &&& after[i].texture == atlas.texture
                &&& after[i].packer.nodes() == split(atlas.packer.nodes(), target, leaf)
                &&& after[i].packer.slots() == atlas.packer.slots().push(
                    Rectangle { pos: slot, size: target },
                )
            },
            None => {
                &&& r matches Ok(Placement::Grow { width: w, height: h })
                &&& w == grown(width, padding)
                &&& h == grown(height, padding)
                &&& after == before
            },
        }
    }

    /// Places an image of the given size in the first atlas that has a slot
    /// for it.
    pub fn add_image_data(
        &mut self,
        save: &TextureSave,
        width: u32,
        height: u32,
        data: &[u8],
    ) -> (r: Result<Placement>)
        requires
            old(self).wf(),
            image_bytes(width, height) <= usize::MAX,
        ensures
            final(self).wf(),
            final(self).full() == old(self).full(),
            final(self).min_size() == old(self).min_size(),
            final(self).padding() == old(self).padding(),
            width == 0 || height == 0 ==> r == Err::<Placement, Error>(
                Error::InvalidTextureSize(width, height),
            ) && final(self).atlases() == old(self).atlases(),
            width != 0 && height != 0 && data@.len() != image_bytes(width, height) ==> r == Err::<
                Placement,
                Error,
            >(
                Error::InvalidImageData {
                    expected: image_bytes(width, height) as usize,
                    actual: data@.len() as usize,
                },
            ) && final(self).atlases() == old(self).atlases(),
            width != 0 && height != 0 && data@.len() == image_bytes(width, height)
                ==> Self::placed(
                old(self).atlases(),
                final(self).atlases(),
                old(self).padding(),
                save.saved(),
                width,
                height,
                r,
            ),
    {
        // Upfront validations.
        if width == 0 || height == 0 {
            return Err(Error::InvalidTextureSize(width, height));
        }
        let expected_len = expected_bytes(width, height);
        if expected_len != data.len() {
            return Err(Error::InvalidImageData { expected: expected_len, actual: data.len() });
        }
        let padded_width: u64 = width as u64 + 2 * (self.padding as u64);
        let padded_height: u64 = height as u64 + 2 * (self.padding as u64);
        if padded_width <= u32::MAX as u64 && padded_height <= u32::MAX as u64 {
            let target: [u32; 2] = [padded_width as u32, padded_height as u32];
            // Look for a texture with space.
            let mut i: usize = 0;
            while i < self.open.len()
                invariant
                    i <= self.open@.len(),
                    self.open@ == old(self).open@,
                    self.closed == old(self).closed,
                    self.min_size == old(self).min_size,
                    self.padding == old(self).padding,
                    self.wf(),
                    first_fit(self.open@, target, 0) == first_fit(self.open@, target, i as int),
                    target == [
                        padded(width, self.padding) as u32,
                        padded(height, self.padding) as u32,
                    ],
                    padded(width, self.padding) <= u32::MAX,
                    padded(height, self.padding) <= u32::MAX,
                    width != 0 && height != 0,
                    data@.len() == image_bytes(width, height),
                    image_bytes(width, height) <= usize::MAX,
                decreases self.open@.len() - i,
            {
                let ghost atlas = self.atlases()[i as int];
                proof {
                    assert(atlas.wf());
                }
                let found = self.open[i].packer.try_insert(target[0], target[1]);
                proof {
                    if found is None {
                        assert(self.open@ =~= old(self).open@);
                    }
                }
                match found {
                    Some(slot_pos) => {
                        proof {
                            let after = self.open@[i as int].packer;
                            after.lemma_slots_apart();
                            assert(after.slots().last().within(after.extent()));
                            assert forall|j: int| 0 <= j < self.open@.len() implies (
                            #[trigger] self.open@[j]).wf() by {
                                if j != i {
                                    assert(self.open@[j] == old(self).open@[j]);
                                    assert(old(self).atlases()[j].wf());
                                }
                            }
                        }
                        let texture = self.open[i].texture;
                        let origin: [u32; 2] = [
                            slot_pos[0] + self.padding,
                            slot_pos[1] + self.padding,
                        ];
                        let upload = match texture.update_sub_data(
                            save,
                            origin,
                            [width, height],
                            data,
                        ) {
                            Ok(upload) => upload,
                            Err(e) => {
                                return Err(e);
                            },
                        };
                        let view = match texture.new_sub(origin, [width, height]) {
                            Ok(view) => view,
                            Err(e) => {
                                return Err(e);
                            },
                        };
                        return Ok(Placement::Placed { view, upload });
                    },
                    None => {},
                }
                i = i + 1;
            }
        }
        // No available space left in open set.
        let new_tex_width: u32 = if padded_width < TexturePack::DEFAULT_DIM as u64 {
            padded_width as u32
        } else {
            TexturePack::DEFAULT_DIM
        };
        let new_tex_height: u32 = if padded_height < TexturePack::DEFAULT_DIM as u64 {
            padded_height as u32
        } else {
            TexturePack::DEFAULT_DIM
        };
        Ok(Placement::Grow { width: new_tex_width, height: new_tex_height })
    }
}

proof fn lemma_first_fit_push(atlases: Seq<Atlas>, fresh: Atlas, target: [u32; 2], from: int)
    requires
        0 <= from <= atlases.len(),
        first_fit(atlases, target, from) is None,
    ensures
        first_fit(atlases.push(fresh), target, from) == if find_slot(
            fresh.packer.nodes(),
            target,
            0,
        ) is Some {
            Some(atlases.len() as int)
        } else {
            None
        },
    decreases atlases.len() - from,
{
    let longer = atlases.push(fresh);
    if from < atlases.len() {
        assert(longer[from] == atlases[from]);
        lemma_first_fit_push(atlases, fresh, target, from + 1);
    } else {
        assert(longer[from] == fresh);
        assert(first_fit(longer, target, from + 1) is None);
    }
}

/// Where no atlas takes an image, and the image with its margin is no
/// larger than the default dimension, the texture that the pack asks for
/// takes it: once that texture is added as a fresh atlas, the image is
/// placed there.
pub proof fn lemma_grown_atlas_takes(
    atlases: Seq<Atlas>,
    fresh: Atlas,
    width: u32,
    height: u32,
    padding: u32,
)
    requires
        atlas_for(atlases, width, height, padding) is None,
        padded(width, padding) <= TexturePack::DEFAULT_DIM,
        padded(height, padding) <= TexturePack::DEFAULT_DIM,
        fresh.fresh(),
        fresh.texture.allocation() == [grown(width, padding), grown(height, padding)],
    ensures
        atlas_for(atlases.push(fresh), width, height, padding) == Some(atlases.len() as int),
{
    let target = [padded(width, padding) as u32, padded(height, padding) as u32];
    crate::packer::lemma_first_insert(grown(width, padding), grown(height, padding), target);
    assert(fresh.texture.allocation()[0] == grown(width, padding));
    assert(fresh.texture.allocation()[1] == grown(height, padding));
    assert(fresh.packer.nodes() =~= seq![
        RectNode::Leaf(
            Rectangle {
                pos: [0u32, 0u32],
                size: [grown(width, padding), grown(height, padding)],
            },
        ),
    ]);
    lemma_first_fit_push(atlases, fresh, target, 0);
}

} // verus!
