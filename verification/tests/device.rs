use glsprite::device::{Destroy, GraphicDevice, OpenGlInfo};
use glsprite::gl::GlCommand;
use glsprite::shader::Shader;
use glsprite::sprite::Sprite;
use glsprite::texture::Texture;

fn device() -> GraphicDevice {
    GraphicDevice::new(vec![
        "GL_ARB_texture_non_power_of_two".to_string(),
        "GL_EXT_texture_filter_anisotropic".to_string(),
    ])
    .0
}

#[test]
fn new_device_sets_the_winding() {
    let (device, commands) = GraphicDevice::new(Vec::new());
    assert_eq!(commands, vec![GlCommand::FrontFace { mode: 0x0901 }]);
    assert_eq!(device.get_viewport_size(), [640, 480]);
    assert!(!device.is_shutting_down());
}

#[test]
fn extensions_are_found_by_name() {
    let device = device();
    assert!(device.has_extension("GL_ARB_texture_non_power_of_two"));
    assert!(device.has_extension("GL_EXT_texture_filter_anisotropic"));
    assert!(!device.has_extension("GL_ARB_texture_non_power_of_tw"));
    assert!(!device.has_extension(""));
    assert!(!GraphicDevice::new(Vec::new()).0.has_extension("GL_ARB_texture_non_power_of_two"));
}

#[test]
fn viewport_size_is_kept() {
    let mut device = device();
    device.set_viewport_size([1024, 768]);
    assert_eq!(device.get_viewport_size(), [1024, 768]);
    assert_eq!(
        device.viewport_command(),
        GlCommand::Viewport { x: 0, y: 0, width: 1024, height: 768 }
    );
}

#[test]
fn viewport_stays_within_signed_numbers() {
    let mut device = device();
    device.set_viewport_size([u32::MAX, 0x8000_0000]);
    assert_eq!(
        device.viewport_command(),
        GlCommand::Viewport { x: 0, y: 0, width: i32::MAX, height: i32::MAX }
    );
    device.set_viewport_size([0x7FFF_FFFF, 0]);
    assert_eq!(
        device.viewport_command(),
        GlCommand::Viewport { x: 0, y: 0, width: i32::MAX, height: 0 }
    );
}

#[test]
fn clear_screen_clears_the_viewport() {
    let mut device = device();
    device.set_viewport_size([320, 200]);
    let color = [0.1f32.to_bits(), 0.2f32.to_bits(), 0.3f32.to_bits(), 1.0f32.to_bits()];
    assert_eq!(
        device.clear_screen(color),
        vec![
            GlCommand::Viewport { x: 0, y: 0, width: 320, height: 200 },
            GlCommand::ClearColor { rgba: color },
            GlCommand::Clear { mask: 0x4000 },
            GlCommand::AssertNoError,
        ]
    );
}

#[test]
fn maintain_deletes_what_was_queued_in_order() {
    let mut device = device();
    device.enqueue(Destroy::Texture(3));
    device.enqueue(Destroy::Shader(4));
    device.enqueue(Destroy::VertexArray(5));
    device.enqueue(Destroy::Texture(6));
    assert_eq!(
        device.maintain(),
        vec![
            GlCommand::DeleteTexture(3),
            GlCommand::DeleteProgram(4),
            GlCommand::DeleteVertexArray(5),
            GlCommand::DeleteTexture(6),
        ]
    );
    // The queue is empty now, and maintaining again does nothing.
    assert_eq!(device.maintain(), vec![]);
    assert_eq!(device.maintain(), vec![]);
}

#[test]
fn each_resource_has_its_deletion() {
    assert_eq!(Destroy::Texture(1).command(), GlCommand::DeleteTexture(1));
    assert_eq!(Destroy::Shader(2).command(), GlCommand::DeleteProgram(2));
    assert_eq!(Destroy::VertexArray(3).command(), GlCommand::DeleteVertexArray(3));
}

#[test]
fn shutdown_drains_the_queue_and_stops_drawing() {
    let mut device = device();
    let shader = Shader::from_source(1, 2, 3, true, String::new()).unwrap().0;
    let mut sprite = Sprite::with_size(10, 11, 12, 0, 0, 8, 8).sprite;
    sprite.set_texture(Texture::new(&device, 20, 8, 8).unwrap().0);
    assert!(!device.draw(&[sprite], &shader).is_empty());
    device.enqueue(Destroy::VertexArray(10));
    assert_eq!(device.shutdown(), vec![GlCommand::DeleteVertexArray(10)]);
    assert!(device.is_shutting_down());
    assert_eq!(device.draw(&[sprite], &shader), vec![]);
    assert_eq!(device.maintain(), vec![]);
}

#[test]
fn draw_draws_each_textured_sprite() {
    let mut device = device();
    device.set_viewport_size([100, 50]);
    let shader = Shader::from_source(1, 2, 3, true, String::new()).unwrap().0;
    let texture = Texture::new(&device, 20, 8, 8).unwrap().0;
    let mut first = Sprite::with_size(10, 11, 12, 0, 0, 8, 8).sprite;
    first.set_texture(texture);
    let bare = Sprite::with_size(13, 14, 15, 0, 0, 8, 8).sprite;
    let mut last = Sprite::with_size(16, 17, 18, 5, 5, 8, 8).sprite;
    last.set_texture(texture.new_sub([0, 0], [4, 4]).unwrap());
    let one = |vertex_array: u32| {
        vec![
            GlCommand::BindVertexArray { vertex_array: Some(vertex_array) },
            GlCommand::ActiveTexture { unit: 0x84C0 },
            GlCommand::BindTexture { target: 0x0DE1, texture: Some(20) },
            GlCommand::DrawElements { mode: 4, count: 6, element_type: 0x1403, offset: 0 },
            GlCommand::AssertNoError,
        ]
    };
    let mut expected = vec![
        GlCommand::Viewport { x: 0, y: 0, width: 100, height: 50 },
        GlCommand::UseProgram(Some(1)),
        GlCommand::Uniform2 { location: 0, x: 100, y: 50 },
    ];
    expected.extend(one(10));
    expected.extend(one(16));
    expected.push(GlCommand::BindVertexArray { vertex_array: None });
    expected.push(GlCommand::UseProgram(None));
    assert_eq!(device.draw(&[first, bare, last], &shader), expected);
}

#[test]
fn info_as_text() {
    let info = OpenGlInfo {
        version: "4.6.0".to_string(),
        vendor: "ACME".to_string(),
        renderer: "Soft".to_string(),
    };
    assert_eq!(
        info.to_text(),
        "OpenGL Info:\n    Version: 4.6.0\n    Vendor: ACME\n    Renderer: Soft\n"
    );
}
