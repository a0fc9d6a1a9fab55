use glsprite::errors::{gl_error, gl_result, Error};
use glsprite::rect::Rect;

#[test]
fn set_error_flag_wins() {
    assert_eq!(gl_result(0x0502, Ok(7u32)), Err(Error::OpenGl(0x0502)));
    assert_eq!(gl_result::<u32>(0x0502, Err("no".to_string())), Err(Error::OpenGl(0x0502)));
    assert_eq!(gl_error(0x0505, ()), Err(Error::OpenGl(0x0505)));
}

#[test]
fn clear_error_flag_keeps_the_result() {
    assert_eq!(gl_result(0, Ok(7u32)), Ok(7));
    assert_eq!(
        gl_result::<u32>(0, Err("out of names".to_string())),
        Err(Error::OpenGlMessage("out of names".to_string()))
    );
    assert_eq!(gl_error(0, 5u8), Ok(5));
    assert_eq!(glow::NO_ERROR, 0);
}

#[test]
fn messages() {
    assert_eq!(
        Error::InvalidTextureSize(0, 16).message(),
        "Invalid texture size (0, 16). Ensure that neither dimension is zero."
    );
    assert_eq!(
        Error::InvalidImageData { expected: 64, actual: 63 }.message(),
        "Image data does not match texture storage size. Expected 64 bytes. Actual 63 bytes."
    );
    assert_eq!(Error::OpenGl(0x0502).message(), "OpenGL Error: 0x502");
    assert_eq!(Error::OpenGl(0).message(), "OpenGL Error: 0x0");
    assert_eq!(Error::OpenGl(u32::MAX).message(), "OpenGL Error: 0xffffffff");
    assert_eq!(Error::OpenGlMessage("lost".to_string()).message(), "OpenGL Error: lost");
    assert_eq!(Error::ShaderCompile("bad".to_string()).message(), "Shader compile error: bad");
    assert_eq!(Error::ShaderLink("worse".to_string()).message(), "Shader link error: worse");
    assert_eq!(
        Error::InvalidSubTexture {
            source: Rect { pos: [0, 0], size: [128, 128] },
            target: Rect { pos: [100, 100], size: [40, 40] },
        }
        .message(),
        "Invalid sub texture [100, 100, 40, 40]. It does not lie within [0, 0, 128, 128]."
    );
}

#[test]
fn numbers_are_written_in_full() {
    assert_eq!(
        Error::InvalidTextureSize(u32::MAX, 1234567890).message(),
        "Invalid texture size (4294967295, 1234567890). Ensure that neither dimension is zero."
    );
    assert_eq!(
        Rect { pos: [1, 20], size: [300, 4000] }.to_text(),
        "[1, 20, 300, 4000]"
    );
}
