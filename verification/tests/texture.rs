use glsprite::device::{Destroy, GraphicDevice};
use glsprite::errors::Error;
use glsprite::gl::GlCommand;
use glsprite::rect::Rect;
use glsprite::texture::{expected_bytes, Texture, TextureHandle, TextureSave};

fn device_with_npot() -> GraphicDevice {
    GraphicDevice::new(vec!["GL_ARB_texture_non_power_of_two".to_string()]).0
}

fn device_without_npot() -> GraphicDevice {
    GraphicDevice::new(vec!["GL_ARB_something_else".to_string()]).0
}

fn texture(handle: u32, width: u32, height: u32) -> Texture {
    Texture::new(&device_with_npot(), handle, width, height).unwrap().0
}

#[test]
fn new_texture_views_the_whole_allocation() {
    let (texture, commands) = Texture::new(&device_with_npot(), 7, 300, 200).unwrap();
    assert_eq!(texture.raw_handle(), 7);
    assert_eq!(texture.orig_size(), [300, 200]);
    assert_eq!(texture.rect(), Rect { pos: [0, 0], size: [300, 200] });
    assert_eq!(
        commands,
        vec![
            GlCommand::BindTexture { target: 0x0DE1, texture: Some(7) },
            GlCommand::TexImage2d {
                target: 0x0DE1,
                level: 0,
                internal_format: 0x8058,
                width: 300,
                height: 200,
                border: 0,
                format: 0x1908,
                ty: 0x1401,
            },
            GlCommand::CheckError,
            GlCommand::TexParameter { target: 0x0DE1, parameter: 0x2801, value: 0x2600 },
            GlCommand::TexParameter { target: 0x0DE1, parameter: 0x2800, value: 0x2600 },
            GlCommand::TexParameter { target: 0x0DE1, parameter: 0x2802, value: 0x812F },
            GlCommand::TexParameter { target: 0x0DE1, parameter: 0x2803, value: 0x812F },
            GlCommand::BindTexture { target: 0x0DE1, texture: None },
        ]
    );
}

#[test]
fn new_texture_refuses_zero_dimensions() {
    let device = device_with_npot();
    assert_eq!(Texture::new(&device, 1, 0, 16).err(), Some(Error::InvalidTextureSize(0, 16)));
    assert_eq!(Texture::new(&device, 1, 16, 0).err(), Some(Error::InvalidTextureSize(16, 0)));
    assert_eq!(Texture::new(&device, 1, 0, 0).err(), Some(Error::InvalidTextureSize(0, 0)));
}

#[test]
fn new_texture_needs_powers_of_two_without_the_extension() {
    let device = device_without_npot();
    assert!(!Texture::is_npot_available(&device));
    assert!(Texture::new(&device, 1, 256, 64).is_ok());
    assert_eq!(Texture::new(&device, 1, 300, 64).err(), Some(Error::InvalidTextureSize(300, 64)));
    assert_eq!(Texture::new(&device, 1, 64, 100).err(), Some(Error::InvalidTextureSize(64, 100)));
    let device = device_with_npot();
    assert!(Texture::is_npot_available(&device));
    assert!(Texture::new(&device, 1, 300, 100).is_ok());
}

#[test]
fn validate_size_refuses_zero() {
    assert_eq!(Texture::validate_size(1, 1), Ok(()));
    assert_eq!(Texture::validate_size(0, 1), Err(Error::InvalidTextureSize(0, 1)));
    assert_eq!(Texture::validate_size(1, 0), Err(Error::InvalidTextureSize(1, 0)));
}

#[test]
fn powers_of_two() {
    assert!(!Texture::is_power_of_two(0));
    assert!(Texture::is_power_of_two(1));
    assert!(Texture::is_power_of_two(2));
    assert!(!Texture::is_power_of_two(3));
    assert!(Texture::is_power_of_two(1024));
    assert!(!Texture::is_power_of_two(1023));
    assert!(!Texture::is_power_of_two(1025));
    assert!(Texture::is_power_of_two(1 << 31));
    assert!(!Texture::is_power_of_two(u32::MAX));
}

#[test]
fn texture_update_takes_four_bytes_per_texel() {
    let texture = texture(3, 4, 4);
    let save = TextureSave::new(9);
    assert_eq!(texture.data_len(), 64);
    let commands = texture.update_data(&save, &[0u8; 64]).unwrap();
    assert_eq!(
        commands,
        vec![
            GlCommand::BindTexture { target: 0x0DE1, texture: Some(3) },
            GlCommand::TexSubImage2d {
                target: 0x0DE1,
                level: 0,
                x_offset: 0,
                y_offset: 0,
                width: 4,
                height: 4,
                format: 0x1908,
                ty: 0x1401,
            },
            GlCommand::BindTexture { target: 0x0DE1, texture: Some(9) },
            GlCommand::CheckError,
        ]
    );
    assert_eq!(
        texture.update_data(&save, &[0u8; 63]),
        Err(Error::InvalidImageData { expected: 64, actual: 63 })
    );
    assert_eq!(
        texture.update_data(&save, &[0u8; 65]),
        Err(Error::InvalidImageData { expected: 64, actual: 65 })
    );
}

#[test]
fn sub_data_update_goes_to_the_given_region() {
    let texture = texture(3, 16, 16);
    let save = TextureSave::new(0);
    let commands = texture.update_sub_data(&save, [2, 5], [3, 2], &[1u8; 24]).unwrap();
    assert_eq!(commands.len(), 4);
    assert_eq!(
        commands[1],
        GlCommand::TexSubImage2d {
            target: 0x0DE1,
            level: 0,
            x_offset: 2,
            y_offset: 5,
            width: 3,
            height: 2,
            format: 0x1908,
            ty: 0x1401,
        }
    );
    assert_eq!(commands[2], save.restore());
    assert_eq!(
        texture.update_sub_data(&save, [2, 5], [3, 2], &[1u8; 25]),
        Err(Error::InvalidImageData { expected: 24, actual: 25 })
    );
    assert_eq!(
        texture.update_sub_data(&save, [0, 0], [0, 7], &[1u8; 1]),
        Err(Error::InvalidImageData { expected: 0, actual: 1 })
    );
    assert!(texture.update_sub_data(&save, [0, 0], [0, 7], &[]).is_ok());
}

#[test]
fn upload_ends_with_the_binding_it_found() {
    let texture = texture(3, 2, 2);
    for bound in [0u32, 3, 77] {
        let commands = texture.update_data(&TextureSave::new(bound), &[0u8; 16]).unwrap();
        let binds: Vec<&GlCommand> = commands
            .iter()
            .filter(|command| matches!(command, GlCommand::BindTexture { .. }))
            .collect();
        assert_eq!(
            binds.last(),
            Some(&&GlCommand::BindTexture { target: 0x0DE1, texture: Some(bound) })
        );
    }
}

#[test]
fn expected_bytes_is_four_per_texel() {
    assert_eq!(expected_bytes(0, 10), 0);
    assert_eq!(expected_bytes(1, 1), 4);
    assert_eq!(expected_bytes(1024, 1024), 4 * 1024 * 1024);
    assert_eq!(expected_bytes(3, 5), 60);
}

#[test]
fn sub_view_chaining() {
    let whole = texture(11, 256, 256);
    let half = whole.new_sub([0, 0], [128, 128]).unwrap();
    assert_eq!(half.rect(), Rect { pos: [0, 0], size: [128, 128] });
    let inner = half.new_sub([64, 64], [32, 32]).unwrap();
    assert_eq!(inner.rect(), Rect { pos: [64, 64], size: [32, 32] });
    assert_eq!(inner.orig_size(), [256, 256]);
    assert_eq!(inner.raw_handle(), 11);
    assert_eq!(
        half.new_sub([100, 100], [40, 40]),
        Err(Error::InvalidSubTexture {
            source: Rect { pos: [0, 0], size: [128, 128] },
            target: Rect { pos: [100, 100], size: [40, 40] },
        })
    );
}

#[test]
fn sub_view_must_lie_within_the_view() {
    let whole = texture(1, 100, 100);
    let view = whole.new_sub([10, 20], [50, 60]).unwrap();
    assert!(view.new_sub([10, 20], [50, 60]).is_ok());
    assert!(view.new_sub([59, 79], [1, 1]).is_ok());
    assert!(matches!(view.new_sub([9, 20], [1, 1]), Err(Error::InvalidSubTexture { .. })));
    assert!(matches!(view.new_sub([10, 19], [1, 1]), Err(Error::InvalidSubTexture { .. })));
    assert!(matches!(view.new_sub([10, 20], [51, 1]), Err(Error::InvalidSubTexture { .. })));
    assert!(matches!(view.new_sub([60, 20], [1, 1]), Err(Error::InvalidSubTexture { .. })));
    assert!(matches!(view.new_sub([10, 80], [1, 1]), Err(Error::InvalidSubTexture { .. })));
    assert!(matches!(
        view.new_sub([u32::MAX, u32::MAX], [2, 2]),
        Err(Error::InvalidSubTexture { .. })
    ));
}

#[test]
fn sub_view_of_no_size_is_refused() {
    let whole = texture(1, 100, 100);
    assert_eq!(whole.new_sub([5, 5], [0, 10]), Err(Error::InvalidTextureSize(0, 10)));
    assert_eq!(whole.new_sub([5, 5], [10, 0]), Err(Error::InvalidTextureSize(10, 0)));
    // A rectangle outside the view is reported as such, whatever its size.
    assert!(matches!(whole.new_sub([200, 5], [0, 0]), Err(Error::InvalidSubTexture { .. })));
}

#[test]
fn sub_view_fails_exactly_when_it_cannot_fit_if_it_ends_within() {
    let whole = texture(1, 64, 64);
    let view = whole.new_sub([8, 8], [32, 32]).unwrap();
    let targets: [([u32; 2], [u32; 2]); 5] = [
        ([8, 8], [32, 32]),
        ([7, 8], [4, 4]),
        ([8, 0], [4, 4]),
        ([20, 20], [20, 20]),
        ([39, 39], [1, 1]),
    ];
    for (pos, size) in targets.iter() {
        let target = Rect { pos: *pos, size: *size };
        let refused = matches!(view.new_sub(*pos, *size), Err(Error::InvalidSubTexture { .. }));
        assert_eq!(refused, !view.rect().can_fit(&target));
    }
}

#[test]
fn clones_share_the_handle() {
    let whole = texture(21, 8, 8);
    let copy = whole.clone();
    let view = whole.new_sub([1, 1], [2, 2]).unwrap();
    assert_eq!(copy.raw_handle(), whole.raw_handle());
    assert_eq!(view.raw_handle(), whole.raw_handle());
    assert_eq!(copy, whole);
}

#[test]
fn last_release_queues_the_texture() {
    let first = texture(21, 8, 8);
    let mut owner = TextureHandle::new(&first);
    assert_eq!(owner.raw_handle(), 21);
    assert_eq!(owner.view_count(), 1);
    let clone = first.clone();
    assert!(owner.share());
    assert_eq!(owner.view_count(), 2);
    // The first view goes first: nothing is queued.
    assert_eq!(owner.release(), None);
    assert_eq!(clone.raw_handle(), 21);
    // The clone goes last.
    assert_eq!(owner.release(), Some(Destroy::Texture(21)));
    assert_eq!(owner.view_count(), 0);
    // Nothing is queued a second time.
    assert_eq!(owner.release(), None);
}

#[test]
fn released_texture_is_deleted_at_maintain() {
    let mut device = device_with_npot();
    let mut owner = TextureHandle::new(&texture(5, 8, 8));
    if let Some(resource) = owner.release() {
        device.enqueue(resource);
    }
    assert_eq!(device.maintain(), vec![GlCommand::DeleteTexture(5)]);
    assert_eq!(device.maintain(), vec![]);
}
