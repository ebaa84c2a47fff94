use me_learning_opengl::constants;

#[test]
fn error_codes_are_those_of_the_bindings() {
    assert_eq!(constants::NO_ERROR, glow::NO_ERROR);
    assert_eq!(constants::INVALID_ENUM, glow::INVALID_ENUM);
    assert_eq!(constants::INVALID_VALUE, glow::INVALID_VALUE);
    assert_eq!(constants::INVALID_OPERATION, glow::INVALID_OPERATION);
    assert_eq!(constants::OUT_OF_MEMORY, glow::OUT_OF_MEMORY);
    assert_eq!(
        constants::INVALID_FRAMEBUFFER_OPERATION,
        glow::INVALID_FRAMEBUFFER_OPERATION
    );
}

#[test]
fn shader_and_buffer_constants_are_those_of_the_bindings() {
    assert_eq!(constants::VERTEX_SHADER, glow::VERTEX_SHADER);
    assert_eq!(constants::FRAGMENT_SHADER, glow::FRAGMENT_SHADER);
    assert_eq!(constants::ARRAY_BUFFER, glow::ARRAY_BUFFER);
    assert_eq!(constants::ELEMENT_ARRAY_BUFFER, glow::ELEMENT_ARRAY_BUFFER);
    assert_eq!(constants::STATIC_DRAW, glow::STATIC_DRAW);
    assert_eq!(constants::UNSIGNED_BYTE, glow::UNSIGNED_BYTE);
    assert_eq!(constants::UNSIGNED_INT, glow::UNSIGNED_INT);
    assert_eq!(constants::FLOAT, glow::FLOAT);
    assert_eq!(constants::TRIANGLES, glow::TRIANGLES);
    assert_eq!(constants::COLOR_BUFFER_BIT, glow::COLOR_BUFFER_BIT);
}

#[test]
fn texture_constants_are_those_of_the_bindings() {
    assert_eq!(constants::TEXTURE0, glow::TEXTURE0);
    assert_eq!(constants::TEXTURE1, glow::TEXTURE1);
    assert_eq!(constants::TEXTURE_2D, glow::TEXTURE_2D);
    assert_eq!(constants::TEXTURE_MAG_FILTER, glow::TEXTURE_MAG_FILTER);
    assert_eq!(constants::TEXTURE_MIN_FILTER, glow::TEXTURE_MIN_FILTER);
    assert_eq!(constants::TEXTURE_WRAP_S, glow::TEXTURE_WRAP_S);
    assert_eq!(constants::TEXTURE_WRAP_T, glow::TEXTURE_WRAP_T);
    assert_eq!(constants::REPEAT, glow::REPEAT);
    assert_eq!(constants::LINEAR, glow::LINEAR);
    assert_eq!(constants::RGB, glow::RGB);
    assert_eq!(constants::RGBA, glow::RGBA);
}

#[test]
fn framebuffer_constants_are_those_of_the_bindings() {
    assert_eq!(constants::READ_FRAMEBUFFER, glow::READ_FRAMEBUFFER);
    assert_eq!(constants::DRAW_FRAMEBUFFER, glow::DRAW_FRAMEBUFFER);
    assert_eq!(constants::RENDERBUFFER, glow::RENDERBUFFER);
    assert_eq!(constants::COLOR_ATTACHMENT0, glow::COLOR_ATTACHMENT0);
    assert_eq!(constants::FRAMEBUFFER_COMPLETE, glow::FRAMEBUFFER_COMPLETE);
}

#[test]
fn a_float_has_four_bytes() {
    assert_eq!(constants::F32_SIZE as usize, std::mem::size_of::<f32>());
}
