use me_learning_opengl::command::Command;
use me_learning_opengl::context::Context;
use me_learning_opengl::mesh::{describe_float_attribute, upload_indices, upload_vertices};
use me_learning_opengl::offscreen::{
    clear_to_red, copy_to_window, read_source, render_target, RenderTarget, HEIGHT, WIDTH,
};
use me_learning_opengl::shader::{build_program, delete_shaders, zeroed_uniform, LinkedProgram};

#[test]
fn uniform_is_looked_up_and_zeroed() {
    let mut gl = Context::new();
    let program = gl.create_program();
    let location = zeroed_uniform(&mut gl, program, "time");
    assert_eq!(location, 1);
    assert_eq!(gl.next_slot(), 2);
    assert_eq!(
        gl.take_frame().commands,
        vec![
            Command::CreateProgram { slot: 0 },
            Command::GetUniformLocation { slot: 1, program: 0, name: "time" },
            Command::UseProgram { program: Some(0) },
            Command::Uniform1F32 { location: 1, bits: 0.0f32.to_bits() },
        ]
    );
}

#[test]
fn shaders_of_a_program_are_deleted() {
    let mut gl = Context::new();
    let linked = build_program(&mut gl, "v.glsl", "f.glsl");
    assert_eq!(linked, LinkedProgram { vertex_shader: 0, fragment_shader: 1, shader_program: 2 });
    let _ = gl.take_frame();
    delete_shaders(&mut gl, linked);
    assert_eq!(gl.next_slot(), 3);
    assert_eq!(
        gl.take_frame().commands,
        vec![Command::DeleteShader { shader: 0 }, Command::DeleteShader { shader: 1 }]
    );
}

#[test]
fn vertices_are_uploaded_to_a_new_buffer_of_a_new_vertex_array() {
    let mut gl = Context::new();
    let _ = gl.create_program();
    let vao = upload_vertices(&mut gl, vec![1, 2, 3, 4]);
    assert_eq!(vao, 1);
    assert_eq!(gl.next_slot(), 3);
    let frame = gl.take_frame();
    assert_eq!(
        frame.commands,
        vec![
            Command::CreateProgram { slot: 0 },
            Command::CreateVertexArray { slot: 1 },
            Command::CreateBuffer { slot: 2 },
            Command::BindVertexArray { vertex_array: Some(1) },
            Command::BindBuffer { target: glow::ARRAY_BUFFER, buffer: Some(2) },
            Command::BufferData { target: glow::ARRAY_BUFFER, data: 0, usage: glow::STATIC_DRAW },
        ]
    );
    assert_eq!(frame.data, vec![vec![1, 2, 3, 4]]);
}

#[test]
fn indices_are_uploaded_to_a_new_element_buffer() {
    let mut gl = Context::new();
    let _ = upload_vertices(&mut gl, vec![0; 8]);
    upload_indices(&mut gl, vec![9, 9]);
    assert_eq!(gl.next_slot(), 3);
    let frame = gl.take_frame();
    assert_eq!(
        &frame.commands[5..],
        &[
            Command::CreateBuffer { slot: 2 },
            Command::BindBuffer { target: glow::ELEMENT_ARRAY_BUFFER, buffer: Some(2) },
            Command::BufferData {
                target: glow::ELEMENT_ARRAY_BUFFER,
                data: 1,
                usage: glow::STATIC_DRAW
            },
        ]
    );
    assert_eq!(frame.data, vec![vec![0; 8], vec![9, 9]]);
}

#[test]
fn float_attribute_is_not_normalized() {
    let mut gl = Context::new();
    describe_float_attribute(&mut gl, 2, 4, 36, 12);
    assert_eq!(
        gl.take_frame().commands,
        vec![Command::VertexAttribPointerF32 {
            index: 2,
            size: 4,
            data_type: glow::FLOAT,
            normalized: false,
            stride: 36,
            offset: 12,
        }]
    );
}

#[test]
fn render_target_is_a_framebuffer_with_a_renderbuffer() {
    assert_eq!((WIDTH, HEIGHT), (800, 600));
    let mut gl = Context::new();
    let target = render_target(&mut gl);
    assert_eq!(target, RenderTarget { framebuffer: 0, renderbuffer: 1 });
    assert_eq!(
        gl.take_frame().commands,
        vec![
            Command::CreateFramebuffer { slot: 0 },
            Command::BindFramebuffer { target: glow::DRAW_FRAMEBUFFER, framebuffer: Some(0) },
            Command::CreateRenderbuffer { slot: 1 },
            Command::BindRenderbuffer { target: glow::RENDERBUFFER, renderbuffer: Some(1) },
            Command::RenderbufferStorage {
                target: glow::RENDERBUFFER,
                internal_format: glow::RGB,
                width: 800,
                height: 600,
            },
            Command::FramebufferRenderbuffer {
                target: glow::DRAW_FRAMEBUFFER,
                attachment: glow::COLOR_ATTACHMENT0,
                renderbuffer_target: glow::RENDERBUFFER,
                renderbuffer: Some(1),
            },
            Command::CheckFramebufferStatus { target: glow::DRAW_FRAMEBUFFER },
        ]
    );
}

#[test]
fn red_is_opaque_red() {
    let mut gl = Context::new();
    clear_to_red(&mut gl);
    assert_eq!(
        gl.take_frame().commands,
        vec![
            Command::ClearColor {
                red: 1.0f32.to_bits(),
                green: 0.0f32.to_bits(),
                blue: 0.0f32.to_bits(),
                alpha: 1.0f32.to_bits(),
            },
            Command::Clear { mask: glow::COLOR_BUFFER_BIT },
        ]
    );
}

#[test]
fn read_source_attaches_the_renderbuffer_it_is_given() {
    let mut gl = Context::new();
    let target = render_target(&mut gl);
    let _ = gl.take_frame();
    let source = read_source(&mut gl, target.renderbuffer);
    assert_eq!(source, 2);
    assert_eq!(
        gl.take_frame().commands,
        vec![
            Command::CreateFramebuffer { slot: 2 },
            Command::BindFramebuffer { target: glow::READ_FRAMEBUFFER, framebuffer: Some(2) },
            Command::FramebufferRenderbuffer {
                target: glow::READ_FRAMEBUFFER,
                attachment: glow::COLOR_ATTACHMENT0,
                renderbuffer_target: glow::RENDERBUFFER,
                renderbuffer: Some(1),
            },
        ]
    );
}

#[test]
fn copy_covers_the_whole_render_target() {
    let mut gl = Context::new();
    copy_to_window(&mut gl);
    assert_eq!(
        gl.take_frame().commands,
        vec![Command::BlitFramebuffer {
            src_x0: 0,
            src_y0: 0,
            src_x1: 800,
            src_y1: 600,
            dst_x0: 0,
            dst_y0: 0,
            dst_x1: 800,
            dst_y1: 600,
            mask: glow::COLOR_BUFFER_BIT,
            filter: glow::LINEAR,
        }]
    );
}
