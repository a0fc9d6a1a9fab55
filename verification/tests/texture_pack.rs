use glsprite::device::GraphicDevice;
use glsprite::errors::Error;
use glsprite::gl::GlCommand;
use glsprite::rect::Rect;
use glsprite::texture::TextureSave;
use glsprite::texture_pack::{Placement, TexturePack};

fn device() -> GraphicDevice {
    GraphicDevice::new(vec!["GL_ARB_texture_non_power_of_two".to_string()]).0
}

fn origin(placement: Placement) -> (u32, Rect) {
    match placement {
        Placement::Placed { view, .. } => (view.raw_handle(), view.rect()),
        Placement::Grow { width, height } => panic!("no slot: asks for {} by {}", width, height),
    }
}

#[test]
fn three_images_share_the_first_atlas() {
    let (mut pack, commands) = TexturePack::new(&device(), 40).unwrap();
    assert_eq!(commands.len(), 8);
    assert_eq!(pack.atlas_count(), 1);
    let save = TextureSave::new(0);
    let data = vec![0u8; 64 * 64 * 4];
    let first = origin(pack.add_image_data(&save, 64, 64, &data).unwrap());
    let second = origin(pack.add_image_data(&save, 64, 64, &data).unwrap());
    let third = origin(pack.add_image_data(&save, 64, 64, &data).unwrap());
    assert_eq!(first, (40, Rect { pos: [1, 1], size: [64, 64] }));
    assert_eq!(second, (40, Rect { pos: [67, 1], size: [64, 64] }));
    assert_eq!(third, (40, Rect { pos: [133, 1], size: [64, 64] }));
    assert_eq!(pack.atlas_count(), 1);
}

#[test]
fn default_atlas_is_1024_square() {
    assert_eq!(TexturePack::DEFAULT_DIM, 1024);
    let (_, commands) = TexturePack::new(&device(), 40).unwrap();
    assert!(matches!(commands[1], GlCommand::TexImage2d { width: 1024, height: 1024, .. }));
}

#[test]
fn image_is_uploaded_where_it_is_placed() {
    let (mut pack, _) = TexturePack::with_size(&device(), 8, 64, 32).unwrap();
    let save = TextureSave::new(3);
    let data = vec![9u8; 10 * 4 * 4];
    pack.add_image_data(&save, 10, 4, &data).unwrap();
    match pack.add_image_data(&save, 10, 4, &data).unwrap() {
        Placement::Placed { view, upload } => {
            assert_eq!(view.rect(), Rect { pos: [13, 1], size: [10, 4] });
            assert_eq!(view.orig_size(), [64, 32]);
            assert_eq!(
                upload,
                vec![
                    GlCommand::BindTexture { target: 0x0DE1, texture: Some(8) },
                    GlCommand::TexSubImage2d {
                        target: 0x0DE1,
                        level: 0,
                        x_offset: 13,
                        y_offset: 1,
                        width: 10,
                        height: 4,
                        format: 0x1908,
                        ty: 0x1401,
                    },
                    GlCommand::BindTexture { target: 0x0DE1, texture: Some(3) },
                    GlCommand::CheckError,
                ]
            );
        }
        Placement::Grow { .. } => panic!("the atlas has room"),
    }
}

#[test]
fn packer_covers_the_whole_texture() {
    // An atlas that is wider than high takes an image that needs its width.
    let (mut pack, _) = TexturePack::with_size(&device(), 8, 64, 16).unwrap();
    let save = TextureSave::new(0);
    let placed = origin(pack.add_image_data(&save, 62, 14, &vec![0u8; 62 * 14 * 4]).unwrap());
    assert_eq!(placed, (8, Rect { pos: [1, 1], size: [62, 14] }));
    // And none that is higher than the atlas.
    let (mut pack, _) = TexturePack::with_size(&device(), 8, 64, 16).unwrap();
    assert!(matches!(
        pack.add_image_data(&save, 10, 15, &vec![0u8; 10 * 15 * 4]).unwrap(),
        Placement::Grow { .. }
    ));
}

#[test]
fn invalid_images_are_refused() {
    let (mut pack, _) = TexturePack::new(&device(), 40).unwrap();
    let save = TextureSave::new(0);
    assert_eq!(
        pack.add_image_data(&save, 0, 4, &[]).err(),
        Some(Error::InvalidTextureSize(0, 4))
    );
    assert_eq!(
        pack.add_image_data(&save, 4, 0, &[]).err(),
        Some(Error::InvalidTextureSize(4, 0))
    );
    assert_eq!(
        pack.add_image_data(&save, 4, 4, &[0u8; 63]).err(),
        Some(Error::InvalidImageData { expected: 64, actual: 63 })
    );
    assert_eq!(
        pack.add_image_data(&save, 4, 4, &[0u8; 65]).err(),
        Some(Error::InvalidImageData { expected: 64, actual: 65 })
    );
    // A refused image takes no slot.
    let placed = origin(pack.add_image_data(&save, 4, 4, &[0u8; 64]).unwrap());
    assert_eq!(placed.1, Rect { pos: [1, 1], size: [4, 4] });
}

#[test]
fn full_pack_asks_for_another_atlas_and_uses_it() {
    let device = device();
    let (mut pack, _) = TexturePack::with_size(&device, 1, 32, 32).unwrap();
    let save = TextureSave::new(0);
    let data = vec![0u8; 30 * 30 * 4];
    assert_eq!(origin(pack.add_image_data(&save, 30, 30, &data).unwrap()).0, 1);
    let (width, height) = match pack.add_image_data(&save, 30, 30, &data).unwrap() {
        Placement::Grow { width, height } => (width, height),
        Placement::Placed { .. } => panic!("the first atlas is full"),
    };
    assert_eq!((width, height), (32, 32));
    let commands = pack.add_atlas(&device, 2, width, height).unwrap();
    assert_eq!(commands.len(), 8);
    assert_eq!(pack.atlas_count(), 2);
    let placed = origin(pack.add_image_data(&save, 30, 30, &data).unwrap());
    assert_eq!(placed, (2, Rect { pos: [1, 1], size: [30, 30] }));
}

#[test]
fn new_atlas_is_no_larger_than_the_default() {
    let (mut pack, _) = TexturePack::with_size(&device(), 1, 16, 16).unwrap();
    let save = TextureSave::new(0);
    let wide = vec![0u8; 2000 * 4 * 4];
    match pack.add_image_data(&save, 2000, 4, &wide).unwrap() {
        Placement::Grow { width, height } => assert_eq!((width, height), (1024, 6)),
        Placement::Placed { .. } => panic!("the atlas is too small"),
    }
    let exact = vec![0u8; 1022 * 1022 * 4];
    match pack.add_image_data(&save, 1022, 1022, &exact).unwrap() {
        Placement::Grow { width, height } => assert_eq!((width, height), (1024, 1024)),
        Placement::Placed { .. } => panic!("the atlas is too small"),
    }
}

#[test]
fn atlas_of_invalid_size_is_not_added() {
    let device = GraphicDevice::new(Vec::new()).0;
    let (mut pack, _) = TexturePack::new(&device, 1).unwrap();
    assert_eq!(pack.add_atlas(&device, 2, 100, 64).err(), Some(Error::InvalidTextureSize(100, 64)));
    assert_eq!(pack.add_atlas(&device, 2, 0, 64).err(), Some(Error::InvalidTextureSize(0, 64)));
    assert_eq!(pack.atlas_count(), 1);
    assert!(pack.add_atlas(&device, 2, 128, 64).is_ok());
    assert_eq!(pack.atlas_count(), 2);
    assert_eq!(
        TexturePack::with_size(&device, 1, 100, 100).err(),
        Some(Error::InvalidTextureSize(100, 100))
    );
}

#[test]
fn first_atlas_with_room_wins() {
    let device = device();
    let (mut pack, _) = TexturePack::with_size(&device, 1, 20, 20).unwrap();
    pack.add_atlas(&device, 2, 40, 40).unwrap();
    let save = TextureSave::new(0);
    // Too large for the first atlas.
    let large = origin(pack.add_image_data(&save, 30, 30, &vec![0u8; 30 * 30 * 4]).unwrap());
    assert_eq!(large, (2, Rect { pos: [1, 1], size: [30, 30] }));
    // Small enough for both: the first takes it.
    let small = origin(pack.add_image_data(&save, 5, 5, &vec![0u8; 5 * 5 * 4]).unwrap());
    assert_eq!(small, (1, Rect { pos: [1, 1], size: [5, 5] }));
}
