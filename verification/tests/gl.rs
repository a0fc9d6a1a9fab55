use glsprite::gl::{
    ARRAY_BUFFER, CCW, CLAMP_TO_EDGE, COLOR_BUFFER_BIT, DYNAMIC_DRAW, ELEMENT_ARRAY_BUFFER, FLOAT,
    FRAGMENT_SHADER, NEAREST, NO_ERROR, RGBA, RGBA8, STATIC_DRAW, TEXTURE0, TEXTURE_2D,
    TEXTURE_MAG_FILTER, TEXTURE_MIN_FILTER, TEXTURE_WRAP_S, TEXTURE_WRAP_T, TRIANGLES,
    UNSIGNED_BYTE, UNSIGNED_SHORT, VERTEX_SHADER,
};

#[test]
fn enumerants_are_those_of_the_backend() {
    assert_eq!(NO_ERROR, glow::NO_ERROR);
    assert_eq!(TRIANGLES, glow::TRIANGLES);
    assert_eq!(CCW, glow::CCW);
    assert_eq!(TEXTURE_2D, glow::TEXTURE_2D);
    assert_eq!(UNSIGNED_BYTE, glow::UNSIGNED_BYTE);
    assert_eq!(UNSIGNED_SHORT, glow::UNSIGNED_SHORT);
    assert_eq!(FLOAT, glow::FLOAT);
    assert_eq!(RGBA, glow::RGBA);
    assert_eq!(NEAREST, glow::NEAREST);
    assert_eq!(TEXTURE_MAG_FILTER, glow::TEXTURE_MAG_FILTER);
    assert_eq!(TEXTURE_MIN_FILTER, glow::TEXTURE_MIN_FILTER);
    assert_eq!(TEXTURE_WRAP_S, glow::TEXTURE_WRAP_S);
    assert_eq!(TEXTURE_WRAP_T, glow::TEXTURE_WRAP_T);
    assert_eq!(COLOR_BUFFER_BIT, glow::COLOR_BUFFER_BIT);
    assert_eq!(RGBA8, glow::RGBA8);
    assert_eq!(CLAMP_TO_EDGE, glow::CLAMP_TO_EDGE);
    assert_eq!(TEXTURE0, glow::TEXTURE0);
    assert_eq!(ARRAY_BUFFER, glow::ARRAY_BUFFER);
    assert_eq!(ELEMENT_ARRAY_BUFFER, glow::ELEMENT_ARRAY_BUFFER);
    assert_eq!(STATIC_DRAW, glow::STATIC_DRAW);
    assert_eq!(DYNAMIC_DRAW, glow::DYNAMIC_DRAW);
    assert_eq!(FRAGMENT_SHADER, glow::FRAGMENT_SHADER);
    assert_eq!(VERTEX_SHADER, glow::VERTEX_SHADER);
}
