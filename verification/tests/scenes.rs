use me_learning_opengl::command::{Command, RenderContext};
use me_learning_opengl::context::Context;
use me_learning_opengl::framebuffers_01::Framebuffers01;
use me_learning_opengl::framebuffers_02::Framebuffers02;
use me_learning_opengl::handler::RenderHandler;
use me_learning_opengl::hello_triangle::HelloTriangle;
use me_learning_opengl::hello_window::HelloWindow;
use me_learning_opengl::shader::{
    build_program, handle_program_link_errors, handle_shader_compile_errors,
};
use me_learning_opengl::shaders_01::Shaders01;
use me_learning_opengl::textures_01::{load_and_bind_texture, Textures01};

fn float_image(values: &[f32]) -> Vec<u8> {
    let mut bytes = Vec::new();
    for value in values {
        bytes.extend_from_slice(&value.to_ne_bytes());
    }
    bytes
}

fn index_image(values: &[u32]) -> Vec<u8> {
    let mut bytes = Vec::new();
    for value in values {
        bytes.extend_from_slice(&value.to_ne_bytes());
    }
    bytes
}

fn program_commands(first: usize, vertex_path: &'static str, fragment_path: &'static str) -> Vec<Command> {
    vec![
        Command::CreateShader { slot: first, shader_type: glow::VERTEX_SHADER },
        Command::ShaderSource { shader: first, path: vertex_path },
        Command::CompileShader { shader: first },
        Command::GetShaderCompileStatus { shader: first },
        Command::CreateShader { slot: first + 1, shader_type: glow::FRAGMENT_SHADER },
        Command::ShaderSource { shader: first + 1, path: fragment_path },
        Command::CompileShader { shader: first + 1 },
        Command::GetShaderCompileStatus { shader: first + 1 },
        Command::CreateProgram { slot: first + 2 },
        Command::AttachShader { program: first + 2, shader: first },
        Command::AttachShader { program: first + 2, shader: first + 1 },
        Command::LinkProgram { program: first + 2 },
        Command::GetProgramLinkStatus { program: first + 2 },
    ]
}

fn texture_commands(first: usize, unit: u32, path: &'static str) -> Vec<Command> {
    vec![
        Command::ActiveTexture { unit },
        Command::LoadImage { slot: first, path },
        Command::CreateTexture { slot: first + 1 },
        Command::BindTexture { target: glow::TEXTURE_2D, texture: Some(first + 1) },
        Command::TexParameterI32 {
            target: glow::TEXTURE_2D,
            parameter: glow::TEXTURE_WRAP_S,
            value: glow::REPEAT as i32,
        },
        Command::TexParameterI32 {
            target: glow::TEXTURE_2D,
            parameter: glow::TEXTURE_WRAP_T,
            value: glow::REPEAT as i32,
        },
        Command::TexParameterI32 {
            target: glow::TEXTURE_2D,
            parameter: glow::TEXTURE_MIN_FILTER,
            value: glow::LINEAR as i32,
        },
        Command::TexParameterI32 {
            target: glow::TEXTURE_2D,
            parameter: glow::TEXTURE_MAG_FILTER,
            value: glow::LINEAR as i32,
        },
        Command::TexImage2D {
            target: glow::TEXTURE_2D,
            level: 0,
            image: first,
            border: 0,
            ty: glow::UNSIGNED_BYTE,
        },
        Command::GenerateMipmap { target: glow::TEXTURE_2D },
    ]
}

fn clear_color(red: f32, green: f32, blue: f32, alpha: f32) -> Command {
    Command::ClearColor {
        red: red.to_bits(),
        green: green.to_bits(),
        blue: blue.to_bits(),
        alpha: alpha.to_bits(),
    }
}

fn attribute(index: u32, size: i32, floats_per_vertex: i32, floats_before: i32) -> Command {
    let float_size = std::mem::size_of::<f32>() as i32;
    Command::VertexAttribPointerF32 {
        index,
        size,
        data_type: glow::FLOAT,
        normalized: false,
        stride: floats_per_vertex * float_size,
        offset: floats_before * float_size,
    }
}

#[test]
fn compile_check_records_a_status_request() {
    let mut gl = Context::new();
    let shader = gl.create_shader(glow::VERTEX_SHADER);
    handle_shader_compile_errors(&mut gl, shader);
    let frame = gl.take_frame();
    assert_eq!(
        frame.commands,
        vec![
            Command::CreateShader { slot: 0, shader_type: glow::VERTEX_SHADER },
            Command::GetShaderCompileStatus { shader: 0 },
        ]
    );
}

#[test]
fn link_check_records_a_status_request() {
    let mut gl = Context::new();
    let program = gl.create_program();
    handle_program_link_errors(&mut gl, program);
    let frame = gl.take_frame();
    assert_eq!(
        frame.commands,
        vec![Command::CreateProgram { slot: 0 }, Command::GetProgramLinkStatus { program: 0 }]
    );
}

#[test]
fn program_is_built_from_two_shaders() {
    let mut gl = Context::new();
    let linked = build_program(&mut gl, "a.glsl", "b.glsl");
    assert_eq!(linked.vertex_shader, 0);
    assert_eq!(linked.fragment_shader, 1);
    assert_eq!(linked.shader_program, 2);
    assert_eq!(gl.next_slot(), 3);
    assert_eq!(gl.take_frame().commands, program_commands(0, "a.glsl", "b.glsl"));
}

#[test]
fn program_slots_follow_the_slots_taken_before() {
    let mut gl = Context::new();
    let _ = gl.create_buffer();
    let _ = gl.create_buffer();
    let _ = gl.take_frame();
    let linked = build_program(&mut gl, "a.glsl", "b.glsl");
    assert_eq!(linked.shader_program, 4);
    assert_eq!(gl.take_frame().commands, program_commands(2, "a.glsl", "b.glsl"));
}

#[test]
fn hello_triangle_setup() {
    let mut gl = Context::new();
    let scene = HelloTriangle::init(&mut gl);
    assert_eq!(scene.shader_program, 2);
    assert_eq!(scene.vao, 3);
    let frame = gl.take_frame();
    let mut expected = program_commands(0, "hello_triangle/vertex.glsl", "hello_triangle/fragment.glsl");
    expected.extend(vec![
        Command::DeleteShader { shader: 0 },
        Command::DeleteShader { shader: 1 },
        Command::CreateVertexArray { slot: 3 },
        Command::CreateBuffer { slot: 4 },
        Command::BindVertexArray { vertex_array: Some(3) },
        Command::BindBuffer { target: glow::ARRAY_BUFFER, buffer: Some(4) },
        Command::BufferData { target: glow::ARRAY_BUFFER, data: 0, usage: glow::STATIC_DRAW },
        attribute(0, 3, 3, 0),
        Command::EnableVertexAttribArray { index: 0 },
    ]);
    assert_eq!(frame.commands, expected);
    assert_eq!(
        frame.data,
        vec![float_image(&[-0.5, -0.5, 0.0, 0.5, -0.5, 0.0, 0.0, 0.5, 0.0])]
    );
}

#[test]
fn hello_triangle_frame() {
    let mut gl = Context::new();
    let mut scene = HelloTriangle::init(&mut gl);
    let _ = gl.take_frame();
    scene.draw(&mut gl);
    let frame = gl.take_frame();
    assert_eq!(
        frame.commands,
        vec![
            clear_color(0., 0.8, 0.8, 1.),
            Command::Clear { mask: glow::COLOR_BUFFER_BIT },
            Command::UseProgram { program: Some(2) },
            Command::BindVertexArray { vertex_array: Some(3) },
            Command::DrawArrays { mode: glow::TRIANGLES, first: 0, count: 3 },
        ]
    );
    assert!(frame.data.is_empty());
    scene.exit(&mut gl);
    assert!(gl.take_frame().commands.is_empty());
}

#[test]
fn shaders_01_setup() {
    let mut gl = Context::new();
    let scene = Shaders01::init(&mut gl);
    assert_eq!(scene.shader_program, 2);
    assert_eq!(scene.time_uniform, 3);
    assert_eq!(scene.vao, 4);
    assert_eq!(scene.start_time, 7);
    let frame = gl.take_frame();
    let mut expected = program_commands(0, "shaders_01/vertex.glsl", "shaders_01/fragment.glsl");
    expected.extend(vec![
        Command::GetUniformLocation { slot: 3, program: 2, name: "time" },
        Command::UseProgram { program: Some(2) },
        Command::Uniform1F32 { location: 3, bits: 0f32.to_bits() },
        Command::DeleteShader { shader: 0 },
        Command::DeleteShader { shader: 1 },
        Command::CreateVertexArray { slot: 4 },
        Command::CreateBuffer { slot: 5 },
        Command::BindVertexArray { vertex_array: Some(4) },
        Command::BindBuffer { target: glow::ARRAY_BUFFER, buffer: Some(5) },
        Command::BufferData { target: glow::ARRAY_BUFFER, data: 0, usage: glow::STATIC_DRAW },
        Command::CreateBuffer { slot: 6 },
        Command::BindBuffer { target: glow::ELEMENT_ARRAY_BUFFER, buffer: Some(6) },
        Command::BufferData { target: glow::ELEMENT_ARRAY_BUFFER, data: 1, usage: glow::STATIC_DRAW },
        attribute(0, 3, 3, 0),
        Command::EnableVertexAttribArray { index: 0 },
        Command::StartTimer { slot: 7 },
    ]);
    assert_eq!(frame.commands, expected);
    assert_eq!(
        frame.data,
        vec![
            float_image(&[-0.5, -0.5, 0.0, 0.5, -0.5, 0.0, 0.5, 0.5, 0.0, -0.5, 0.5, 0.0]),
            index_image(&[0, 1, 2, 0, 2, 3]),
        ]
    );
}

#[test]
fn shaders_01_frame() {
    let mut gl = Context::new();
    let mut scene = Shaders01::init(&mut gl);
    let _ = gl.take_frame();
    scene.draw(&mut gl);
    let frame = gl.take_frame();
    assert_eq!(
        frame.commands,
        vec![
            clear_color(0., 0.2, 0.2, 1.),
            Command::Clear { mask: glow::COLOR_BUFFER_BIT },
            Command::UseProgram { program: Some(2) },
            Command::Uniform1Elapsed { location: 3, timer: 7 },
            Command::BindVertexArray { vertex_array: Some(4) },
            Command::DrawElements {
                mode: glow::TRIANGLES,
                count: 6,
                element_type: glow::UNSIGNED_INT,
                offset: 0,
            },
        ]
    );
    assert!(frame.data.is_empty());
}

#[test]
fn quad_of_four_vertices_and_six_indices_draws_six_unsigned_int_indices() {
    let mut gl = Context::new();
    let mut scene = Shaders01::init(&mut gl);
    let setup = gl.take_frame();
    let floats_per_vertex = 3;
    assert_eq!(setup.data[0].len(), 4 * floats_per_vertex * std::mem::size_of::<f32>());
    assert_eq!(setup.data[1].len(), 6 * std::mem::size_of::<u32>());
    scene.draw(&mut gl);
    let frame = gl.take_frame();
    let draws: Vec<&Command> = frame
        .commands
        .iter()
        .filter(|command| matches!(command, Command::DrawElements { .. } | Command::DrawArrays { .. }))
        .collect();
    assert_eq!(
        draws,
        vec![&Command::DrawElements {
            mode: glow::TRIANGLES,
            count: 6,
            element_type: glow::UNSIGNED_INT,
            offset: 0,
        }]
    );
}

#[test]
fn textured_quad_draws_six_unsigned_int_indices() {
    let mut gl = Context::new();
    let mut scene = Textures01::init(&mut gl);
    let setup = gl.take_frame();
    let floats_per_vertex = 9;
    assert_eq!(setup.data[0].len(), 4 * floats_per_vertex * std::mem::size_of::<f32>());
    assert_eq!(setup.data[1].len(), 6 * std::mem::size_of::<u32>());
    scene.draw(&mut gl);
    let frame = gl.take_frame();
    assert_eq!(
        frame.commands.last(),
        Some(&Command::DrawElements {
            mode: glow::TRIANGLES,
            count: 6,
            element_type: glow::UNSIGNED_INT,
            offset: 0,
        })
    );
}

#[test]
fn texture_is_loaded_and_bound() {
    let mut gl = Context::new();
    let texture = load_and_bind_texture(&mut gl, glow::TEXTURE1, "./assets/wall.jpg");
    assert_eq!(texture, 1);
    assert_eq!(gl.next_slot(), 2);
    assert_eq!(gl.take_frame().commands, texture_commands(0, glow::TEXTURE1, "./assets/wall.jpg"));
}

#[test]
fn textures_01_setup() {
    let mut gl = Context::new();
    let scene = Textures01::init(&mut gl);
    assert_eq!(scene.shader_program, 2);
    assert_eq!(scene.time_uniform, 3);
    assert_eq!(scene.vao, 4);
    assert_eq!(scene.texture0, 8);
    assert_eq!(scene.texture1, 10);
    assert_eq!(scene.start_time, 11);
    let frame = gl.take_frame();
    let mut expected = program_commands(0, "textures_01/vertex.glsl", "textures_01/fragment.glsl");
    expected.extend(vec![
        Command::GetUniformLocation { slot: 3, program: 2, name: "time" },
        Command::UseProgram { program: Some(2) },
        Command::Uniform1F32 { location: 3, bits: 0 },
        Command::DeleteShader { shader: 0 },
        Command::DeleteShader { shader: 1 },
        Command::CreateVertexArray { slot: 4 },
        Command::CreateBuffer { slot: 5 },
        Command::BindVertexArray { vertex_array: Some(4) },
        Command::BindBuffer { target: glow::ARRAY_BUFFER, buffer: Some(5) },
        Command::BufferData { target: glow::ARRAY_BUFFER, data: 0, usage: glow::STATIC_DRAW },
        Command::CreateBuffer { slot: 6 },
        Command::BindBuffer { target: glow::ELEMENT_ARRAY_BUFFER, buffer: Some(6) },
        Command::BufferData { target: glow::ELEMENT_ARRAY_BUFFER, data: 1, usage: glow::STATIC_DRAW },
        attribute(0, 3, 9, 0),
        attribute(1, 4, 9, 3),
        attribute(2, 2, 9, 7),
        Command::EnableVertexAttribArray { index: 0 },
        Command::EnableVertexAttribArray { index: 1 },
        Command::EnableVertexAttribArray { index: 2 },
    ]);
    expected.extend(texture_commands(7, glow::TEXTURE0, "./assets/awesomeface.png"));
    expected.extend(texture_commands(9, glow::TEXTURE1, "./assets/wall.jpg"));
    expected.push(Command::StartTimer { slot: 11 });
    assert_eq!(frame.commands, expected);
    let vertices = [
        -0.5f32, -0.5, 0.0, 1., 0., 0., 1., 0., 0., // bottom left
        0.5, -0.5, 0.0, 0., 1., 0., 1., 0., 1., // bottom right
        0.5, 0.5, 0.0, 0., 0., 1., 1., 1., 1., // top right
        -0.5, 0.5, 0.0, 0.5, 0.5, 0.5, 1., 1., 0., // top left
    ];
    assert_eq!(frame.data, vec![float_image(&vertices), index_image(&[0, 1, 2, 0, 2, 3])]);
}

#[test]
fn textures_01_frame() {
    let mut gl = Context::new();
    let mut scene = Textures01::init(&mut gl);
    let _ = gl.take_frame();
    scene.draw(&mut gl);
    let frame = gl.take_frame();
    assert_eq!(
        frame.commands,
        vec![
            clear_color(0., 0.2, 0.2, 1.),
            Command::Clear { mask: glow::COLOR_BUFFER_BIT },
            Command::UseProgram { program: Some(2) },
            Command::Uniform1Elapsed { location: 3, timer: 11 },
            Command::ActiveTexture { unit: glow::TEXTURE0 },
            Command::BindTexture { target: glow::TEXTURE_2D, texture: Some(8) },
            Command::ActiveTexture { unit: glow::TEXTURE1 },
            Command::BindTexture { target: glow::TEXTURE_2D, texture: Some(10) },
            Command::Uniform1I32Named { program: 2, name: "imageTexture1", value: 0 },
            Command::Uniform1I32Named { program: 2, name: "imageTexture2", value: 1 },
            Command::BindVertexArray { vertex_array: Some(4) },
            Command::DrawElements {
                mode: glow::TRIANGLES,
                count: 6,
                element_type: glow::UNSIGNED_INT,
                offset: 0,
            },
        ]
    );
}

#[test]
fn hello_window_frame() {
    let mut gl = Context::new();
    let mut scene = HelloWindow::init(&mut gl);
    assert!(gl.take_frame().commands.is_empty());
    scene.draw(&mut gl);
    assert_eq!(
        gl.take_frame().commands,
        vec![
            clear_color(1., 0., 0., 1.),
            Command::Clear { mask: glow::COLOR_BUFFER_BIT },
            Command::DrawArrays { mode: glow::TRIANGLES, first: 0, count: 3 },
        ]
    );
}

fn blit() -> Command {
    Command::BlitFramebuffer {
        src_x0: 0,
        src_y0: 0,
        src_x1: 800,
        src_y1: 600,
        dst_x0: 0,
        dst_y0: 0,
        dst_x1: 800,
        dst_y1: 600,
        mask: glow::COLOR_BUFFER_BIT,
        filter: glow::LINEAR,
    }
}

fn attach(target: u32, renderbuffer: usize) -> Command {
    Command::FramebufferRenderbuffer {
        target,
        attachment: glow::COLOR_ATTACHMENT0,
        renderbuffer_target: glow::RENDERBUFFER,
        renderbuffer: Some(renderbuffer),
    }
}

fn storage() -> Command {
    Command::RenderbufferStorage {
        target: glow::RENDERBUFFER,
        internal_format: glow::RGB,
        width: 800,
        height: 600,
    }
}

#[test]
fn framebuffers_01_frames_take_new_slots() {
    let mut gl = Context::new();
    let mut scene = Framebuffers01::init(&mut gl);
    assert!(gl.take_frame().commands.is_empty());
    for first in [0usize, 3, 6] {
        scene.draw(&mut gl);
        assert_eq!(
            gl.take_frame().commands,
            vec![
                Command::CreateFramebuffer { slot: first },
                Command::BindFramebuffer { target: glow::DRAW_FRAMEBUFFER, framebuffer: Some(first) },
                Command::CreateRenderbuffer { slot: first + 1 },
                Command::BindRenderbuffer { target: glow::RENDERBUFFER, renderbuffer: Some(first + 1) },
                storage(),
                attach(glow::DRAW_FRAMEBUFFER, first + 1),
                Command::CheckFramebufferStatus { target: glow::DRAW_FRAMEBUFFER },
                clear_color(1., 0., 0., 1.),
                Command::Clear { mask: glow::COLOR_BUFFER_BIT },
                Command::BindFramebuffer { target: glow::DRAW_FRAMEBUFFER, framebuffer: None },
                Command::CreateFramebuffer { slot: first + 2 },
                Command::BindFramebuffer {
                    target: glow::READ_FRAMEBUFFER,
                    framebuffer: Some(first + 2)
                },
                attach(glow::READ_FRAMEBUFFER, first + 1),
                blit(),
                Command::GetError,
            ]
        );
    }
}

#[test]
fn framebuffers_02_switches_contexts() {
    let mut gl = Context::new();
    let mut scene = Framebuffers02::init(&mut gl);
    assert_eq!(
        gl.take_frame().commands,
        vec![Command::MakeCurrent { context: RenderContext::Root }]
    );
    scene.draw(&mut gl);
    assert_eq!(
        gl.take_frame().commands,
        vec![
            Command::CreateFramebuffer { slot: 0 },
            Command::BindFramebuffer { target: glow::DRAW_FRAMEBUFFER, framebuffer: Some(0) },
            Command::CreateRenderbuffer { slot: 1 },
            Command::BindRenderbuffer { target: glow::RENDERBUFFER, renderbuffer: Some(1) },
            storage(),
            attach(glow::DRAW_FRAMEBUFFER, 1),
            Command::CheckFramebufferStatus { target: glow::DRAW_FRAMEBUFFER },
            clear_color(1., 0., 0., 1.),
            Command::Clear { mask: glow::COLOR_BUFFER_BIT },
            Command::MakeCurrent { context: RenderContext::Surface },
            Command::CreateFramebuffer { slot: 2 },
            Command::BindFramebuffer { target: glow::READ_FRAMEBUFFER, framebuffer: Some(2) },
            attach(glow::READ_FRAMEBUFFER, 1),
            Command::CheckFramebufferStatus { target: glow::DRAW_FRAMEBUFFER },
            Command::BindFramebuffer { target: glow::DRAW_FRAMEBUFFER, framebuffer: None },
            blit(),
            Command::DeleteFramebuffer { framebuffer: 2 },
            Command::MakeCurrent { context: RenderContext::Root },
            Command::DeleteFramebuffer { framebuffer: 0 },
            Command::GetError,
        ]
    );
}

#[test]
fn context_hands_out_slots_in_order() {
    let mut gl = Context::new();
    assert_eq!(gl.next_slot(), 0);
    assert_eq!(gl.create_shader(glow::FRAGMENT_SHADER), 0);
    assert_eq!(gl.create_program(), 1);
    assert_eq!(gl.create_vertex_array(), 2);
    assert_eq!(gl.create_buffer(), 3);
    assert_eq!(gl.create_texture(), 4);
    assert_eq!(gl.create_framebuffer(), 5);
    assert_eq!(gl.create_renderbuffer(), 6);
    assert_eq!(gl.get_uniform_location(1, "time"), 7);
    assert_eq!(gl.load_image("a.png"), 8);
    assert_eq!(gl.start_timer(), 9);
    assert_eq!(gl.next_slot(), 10);
    let frame = gl.take_frame();
    assert_eq!(
        frame.commands,
        vec![
            Command::CreateShader { slot: 0, shader_type: glow::FRAGMENT_SHADER },
            Command::CreateProgram { slot: 1 },
            Command::CreateVertexArray { slot: 2 },
            Command::CreateBuffer { slot: 3 },
            Command::CreateTexture { slot: 4 },
            Command::CreateFramebuffer { slot: 5 },
            Command::CreateRenderbuffer { slot: 6 },
            Command::GetUniformLocation { slot: 7, program: 1, name: "time" },
            Command::LoadImage { slot: 8, path: "a.png" },
            Command::StartTimer { slot: 9 },
        ]
    );
    assert_eq!(gl.next_slot(), 10);
    assert!(gl.take_frame().commands.is_empty());
}

#[test]
fn recording_a_binding_command_takes_the_next_slot_only() {
    let mut gl = Context::new();
    gl.record(Command::CreateBuffer { slot: 5 });
    assert_eq!(gl.next_slot(), 0);
    gl.record(Command::CreateBuffer { slot: 0 });
    assert_eq!(gl.next_slot(), 1);
    gl.record(Command::Clear { mask: 0 });
    assert_eq!(gl.next_slot(), 1);
    assert_eq!(gl.take_frame().commands.len(), 3);
}

#[test]
fn uploads_number_their_data_blocks_within_the_frame() {
    let mut gl = Context::new();
    assert_eq!(gl.next_data(), 0);
    gl.buffer_data_u8_slice(glow::ARRAY_BUFFER, vec![1, 2, 3], glow::STATIC_DRAW);
    gl.buffer_data_u8_slice(glow::ELEMENT_ARRAY_BUFFER, vec![4], glow::STATIC_DRAW);
    assert_eq!(gl.next_data(), 2);
    let frame = gl.take_frame();
    assert_eq!(
        frame.commands,
        vec![
            Command::BufferData { target: glow::ARRAY_BUFFER, data: 0, usage: glow::STATIC_DRAW },
            Command::BufferData {
                target: glow::ELEMENT_ARRAY_BUFFER,
                data: 1,
                usage: glow::STATIC_DRAW
            },
        ]
    );
    assert_eq!(frame.data, vec![vec![1, 2, 3], vec![4]]);
    gl.buffer_data_u8_slice(glow::ARRAY_BUFFER, vec![9], glow::STATIC_DRAW);
    let next = gl.take_frame();
    assert_eq!(
        next.commands,
        vec![Command::BufferData { target: glow::ARRAY_BUFFER, data: 0, usage: glow::STATIC_DRAW }]
    );
    assert_eq!(next.data, vec![vec![9]]);
}
