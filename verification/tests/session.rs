use me_learning_opengl::command::{Command, ObjectKind, RenderContext};
use me_learning_opengl::context::{Context, Frame};
use me_learning_opengl::error::Error;
use me_learning_opengl::failure::Failure;
use me_learning_opengl::framebuffers_01::Framebuffers01;
use me_learning_opengl::framebuffers_02::Framebuffers02;
use me_learning_opengl::handler::RenderHandler;
use me_learning_opengl::hello_triangle::HelloTriangle;
use me_learning_opengl::hello_window::HelloWindow;
use me_learning_opengl::image::{ImageInfo, PixelLayout};
use me_learning_opengl::reply::{judge, Expectation, Reply, Verdict};
use me_learning_opengl::session::{Bound, Session, Step};
use me_learning_opengl::shaders_01::Shaders01;
use me_learning_opengl::textures_01::Textures01;
use me_learning_opengl::window::{with_window, Action, Event};

/// An image of two by two pixels in the given layout, with a pixel buffer
/// of the right size.
fn small_image(layout: PixelLayout) -> ImageInfo {
    let bytes_per_pixel = match layout {
        PixelLayout::Luma8 => 1,
        PixelLayout::LumaAlpha8 => 2,
        PixelLayout::Rgb8 => 3,
        PixelLayout::Rgba8 => 4,
        PixelLayout::Other => 0,
    };
    ImageInfo { layout, width: 2, height: 2, bytes: 4 * bytes_per_pixel }
}

/// The reply of a driver on which everything succeeds.
fn success(command: &Command) -> Reply {
    match command.expectation() {
        Expectation::Completion => Reply::Done,
        Expectation::Creation(_) => Reply::Created,
        Expectation::Uniform(_) => Reply::Found,
        Expectation::Image(_) => Reply::Decoded(small_image(PixelLayout::Rgba8)),
        Expectation::CompileStatus(_) => Reply::Status(true),
        Expectation::LinkStatus(_) => Reply::Status(true),
        Expectation::CompileLog => Reply::Log(String::new()),
        Expectation::LinkLog => Reply::Log(String::new()),
        Expectation::FramebufferStatus => Reply::Code(glow::FRAMEBUFFER_COMPLETE),
        Expectation::ErrorCode => Reply::Code(glow::NO_ERROR),
        Expectation::CurrentContext => Reply::Done,
    }
}

/// Carries a frame out against a driver that answers with `answer`, and
/// returns the commands that were issued and the step that ended the frame.
fn carry_out(
    session: &mut Session,
    frame: Frame,
    answer: &dyn Fn(&Command) -> Reply,
) -> (Vec<Command>, Step) {
    assert!(session.submit(frame));
    let mut issued = Vec::new();
    let mut step = session.advance(None);
    loop {
        match step {
            Step::Issue(command) => {
                issued.push(command);
                step = session.advance(Some(answer(&command)));
            },
            last => return (issued, last),
        }
    }
}

fn frame_of(commands: Vec<Command>) -> Frame {
    Frame { commands, data: Vec::new() }
}

fn frames_of<H: RenderHandler>(redraws: usize) -> Vec<Frame> {
    let mut events = vec![Event::RedrawRequested; redraws];
    events.push(Event::CloseRequested);
    with_window::<H>(&events)
        .into_iter()
        .filter_map(|action| match action {
            Action::Setup(frame) | Action::Render(frame) | Action::Close(frame) => Some(frame),
            _ => None,
        })
        .collect()
}

fn runs_to_the_end<H: RenderHandler>() {
    let mut session = Session::new();
    for frame in frames_of::<H>(3) {
        let commands = frame.commands.clone();
        let (issued, last) = carry_out(&mut session, frame, &success);
        assert_eq!(last, Step::Finished);
        assert_eq!(issued, commands);
    }
}

#[test]
fn every_scene_is_carried_out_in_order_when_the_driver_succeeds() {
    runs_to_the_end::<HelloWindow>();
    runs_to_the_end::<HelloTriangle>();
    runs_to_the_end::<Shaders01>();
    runs_to_the_end::<Textures01>();
    runs_to_the_end::<Framebuffers01>();
    runs_to_the_end::<Framebuffers02>();
}

#[test]
fn empty_frame_is_finished_at_once() {
    let mut session = Session::new();
    assert!(session.submit(frame_of(vec![])));
    assert_eq!(session.advance(None), Step::Finished);
    assert_eq!(session.advance(None), Step::Finished);
}

#[test]
fn missing_uniform_is_no_silent_success() {
    let mut gl = Context::new();
    let _ = Shaders01::init(&mut gl);
    let mut session = Session::new();
    let (issued, last) = carry_out(&mut session, gl.take_frame(), &|command| match command {
        Command::GetUniformLocation { .. } => Reply::Missing,
        other => success(other),
    });
    assert_eq!(last, Step::Failed(Failure::NoSuchUniform("time")));
    assert_eq!(
        issued.last(),
        Some(&Command::GetUniformLocation { slot: 3, program: 2, name: "time" })
    );
    assert_eq!(session.advance(None), Step::Failed(Failure::Halted));
}

#[test]
fn missing_sampler_uniform_is_no_silent_success() {
    let mut session = Session::new();
    let frames = frames_of::<Textures01>(1);
    let mut frames = frames.into_iter();
    let (_, last) = carry_out(&mut session, frames.next().unwrap(), &success);
    assert_eq!(last, Step::Finished);
    let (issued, last) = carry_out(&mut session, frames.next().unwrap(), &|command| match command {
        Command::Uniform1I32Named { name: "imageTexture2", .. } => Reply::Missing,
        other => success(other),
    });
    assert_eq!(last, Step::Failed(Failure::NoSuchUniform("imageTexture2")));
    assert_eq!(issued.len(), 10);
}

#[test]
fn uniform_verdicts() {
    let lookup = Command::GetUniformLocation { slot: 1, program: 0, name: "nope" };
    assert_eq!(judge(lookup, Reply::Found), Verdict::Proceed);
    assert_eq!(judge(lookup, Reply::Missing), Verdict::Fail(Failure::NoSuchUniform("nope")));
    let set = Command::Uniform1I32Named { program: 0, name: "sampler", value: 3 };
    assert_eq!(judge(set, Reply::Found), Verdict::Proceed);
    assert_eq!(judge(set, Reply::Missing), Verdict::Fail(Failure::NoSuchUniform("sampler")));
    assert_eq!(judge(set, Reply::Done), Verdict::Fail(Failure::UnexpectedReply(set)));
}

#[test]
fn shader_that_does_not_compile_fails_with_the_log() {
    let mut gl = Context::new();
    let _ = HelloTriangle::init(&mut gl);
    let mut session = Session::new();
    let (issued, last) = carry_out(&mut session, gl.take_frame(), &|command| match command {
        Command::GetShaderCompileStatus { shader: 1 } => Reply::Status(false),
        Command::GetShaderInfoLog { shader: 1 } => Reply::Log("0:3: syntax error".to_string()),
        other => success(other),
    });
    let failure = Failure::ShaderCompile("0:3: syntax error".to_string());
    assert_eq!(failure.exit_code(), Some(1));
    assert_eq!(last, Step::Failed(failure));
    assert_eq!(
        &issued[issued.len() - 2..],
        &[Command::GetShaderCompileStatus { shader: 1 }, Command::GetShaderInfoLog { shader: 1 }]
    );
    assert_eq!(issued.len(), 9);
}

#[test]
fn program_that_does_not_link_fails_with_the_log() {
    let mut gl = Context::new();
    let _ = HelloTriangle::init(&mut gl);
    let mut session = Session::new();
    let (issued, last) = carry_out(&mut session, gl.take_frame(), &|command| match command {
        Command::GetProgramLinkStatus { .. } => Reply::Status(false),
        Command::GetProgramInfoLog { .. } => Reply::Log("unresolved symbol".to_string()),
        other => success(other),
    });
    let failure = Failure::ProgramLink("unresolved symbol".to_string());
    assert_eq!(failure.exit_code(), Some(1));
    assert_eq!(last, Step::Failed(failure));
    assert_eq!(issued.last(), Some(&Command::GetProgramInfoLog { program: 2 }));
    assert_eq!(issued.len(), 14);
}

#[test]
fn status_verdicts() {
    let compile = Command::GetShaderCompileStatus { shader: 4 };
    assert_eq!(judge(compile, Reply::Status(true)), Verdict::Proceed);
    assert_eq!(
        judge(compile, Reply::Status(false)),
        Verdict::Ask(Command::GetShaderInfoLog { shader: 4 })
    );
    let link = Command::GetProgramLinkStatus { program: 6 };
    assert_eq!(judge(link, Reply::Status(true)), Verdict::Proceed);
    assert_eq!(
        judge(link, Reply::Status(false)),
        Verdict::Ask(Command::GetProgramInfoLog { program: 6 })
    );
    assert_eq!(
        judge(Command::GetShaderInfoLog { shader: 4 }, Reply::Log("a".to_string())),
        Verdict::Fail(Failure::ShaderCompile("a".to_string()))
    );
    assert_eq!(
        judge(Command::GetProgramInfoLog { program: 6 }, Reply::Log("b".to_string())),
        Verdict::Fail(Failure::ProgramLink("b".to_string()))
    );
}

#[test]
fn only_compile_and_link_failures_have_an_exit_code() {
    assert_eq!(Failure::ShaderCompile(String::new()).exit_code(), Some(1));
    assert_eq!(Failure::ProgramLink(String::new()).exit_code(), Some(1));
    let others = vec![
        Failure::Context("no display".to_string()),
        Failure::ObjectCreation { kind: ObjectKind::Buffer, reason: String::new() },
        Failure::NoSuchUniform("time"),
        Failure::ImageUnreadable { path: "a.png", reason: String::new() },
        Failure::UnsupportedImageFormat(PixelLayout::Luma8),
        Failure::MalformedImage { path: "a.png", image: small_image(PixelLayout::Rgb8) },
        Failure::IncompleteFramebuffer(0),
        Failure::Driver(Error::OutOfMemory),
        Failure::InvalidCommand(Command::GetError),
        Failure::UnexpectedReply(Command::GetError),
        Failure::OutOfTurn,
        Failure::Halted,
    ];
    for failure in others {
        assert_eq!(failure.exit_code(), None);
    }
}

#[test]
fn image_layouts() {
    assert_eq!(PixelLayout::Rgb8.texture_format(), Some(glow::RGB));
    assert_eq!(PixelLayout::Rgba8.texture_format(), Some(glow::RGBA));
    assert_eq!(PixelLayout::Luma8.texture_format(), None);
    assert_eq!(PixelLayout::LumaAlpha8.texture_format(), None);
    assert_eq!(PixelLayout::Other.texture_format(), None);
}

#[test]
fn image_verdicts() {
    let load = Command::LoadImage { slot: 0, path: "./assets/wall.jpg" };
    assert_eq!(judge(load, Reply::Decoded(small_image(PixelLayout::Rgb8))), Verdict::Proceed);
    assert_eq!(judge(load, Reply::Decoded(small_image(PixelLayout::Rgba8))), Verdict::Proceed);
    for layout in [PixelLayout::Luma8, PixelLayout::LumaAlpha8, PixelLayout::Other] {
        assert_eq!(
            judge(load, Reply::Decoded(small_image(layout))),
            Verdict::Fail(Failure::UnsupportedImageFormat(layout))
        );
    }
    assert_eq!(
        judge(load, Reply::Unreadable("no such file".to_string())),
        Verdict::Fail(Failure::ImageUnreadable {
            path: "./assets/wall.jpg",
            reason: "no such file".to_string()
        })
    );
}

#[test]
fn image_sizes() {
    assert_eq!(PixelLayout::Luma8.bytes_per_pixel(), 1);
    assert_eq!(PixelLayout::LumaAlpha8.bytes_per_pixel(), 2);
    assert_eq!(PixelLayout::Rgb8.bytes_per_pixel(), 3);
    assert_eq!(PixelLayout::Rgba8.bytes_per_pixel(), 4);
    assert_eq!(PixelLayout::Other.bytes_per_pixel(), 0);
    let rgb = |width, height, bytes| ImageInfo { layout: PixelLayout::Rgb8, width, height, bytes };
    assert!(rgb(512, 512, 512 * 512 * 3).is_well_formed());
    assert!(rgb(1, 7, 21).is_well_formed());
    assert!(rgb(0, 0, 0).is_well_formed());
    assert!(rgb(0, 9, 0).is_well_formed());
    assert!(!rgb(512, 512, 512 * 512 * 4).is_well_formed());
    assert!(!rgb(512, 512, 512 * 512 * 3 - 1).is_well_formed());
    assert!(!rgb(512, 512, 0).is_well_formed());
    assert!(!rgb(0, 0, 1).is_well_formed());
    let wide = |width, height| ImageInfo { layout: PixelLayout::Luma8, width, height, bytes: 0 };
    assert!(wide(i32::MAX as u32, 0).is_well_formed());
    assert!(!wide(i32::MAX as u32 + 1, 0).is_well_formed());
    assert!(wide(0, i32::MAX as u32).is_well_formed());
    assert!(!wide(0, u32::MAX).is_well_formed());
    let rgba = ImageInfo { layout: PixelLayout::Rgba8, width: 3, height: 5, bytes: 60 };
    assert!(rgba.is_well_formed());
    assert!(!ImageInfo { bytes: 45, ..rgba }.is_well_formed());
}

#[test]
fn malformed_image_verdicts() {
    let load = Command::LoadImage { slot: 0, path: "./assets/awesomeface.png" };
    let short = ImageInfo { layout: PixelLayout::Rgba8, width: 4, height: 4, bytes: 63 };
    assert_eq!(
        judge(load, Reply::Decoded(short)),
        Verdict::Fail(Failure::MalformedImage { path: "./assets/awesomeface.png", image: short })
    );
    let huge = ImageInfo { layout: PixelLayout::Rgb8, width: u32::MAX, height: 1, bytes: 0 };
    assert_eq!(
        judge(load, Reply::Decoded(huge)),
        Verdict::Fail(Failure::MalformedImage { path: "./assets/awesomeface.png", image: huge })
    );
    let gray = ImageInfo { layout: PixelLayout::Luma8, width: 4, height: 4, bytes: 3 };
    assert_eq!(
        judge(load, Reply::Decoded(gray)),
        Verdict::Fail(Failure::UnsupportedImageFormat(PixelLayout::Luma8))
    );
    let exact = ImageInfo { layout: PixelLayout::Rgba8, width: 4, height: 4, bytes: 64 };
    assert_eq!(judge(load, Reply::Decoded(exact)), Verdict::Proceed);
}

#[test]
fn image_of_unsupported_layout_ends_the_setup() {
    let mut gl = Context::new();
    let _ = Textures01::init(&mut gl);
    let mut session = Session::new();
    let (issued, last) = carry_out(&mut session, gl.take_frame(), &|command| match command {
        Command::LoadImage { path: "./assets/wall.jpg", .. } => {
            Reply::Decoded(small_image(PixelLayout::Luma8))
        },
        Command::LoadImage { .. } => Reply::Decoded(small_image(PixelLayout::Rgb8)),
        other => success(other),
    });
    assert_eq!(last, Step::Failed(Failure::UnsupportedImageFormat(PixelLayout::Luma8)));
    assert_eq!(issued.last(), Some(&Command::LoadImage { slot: 9, path: "./assets/wall.jpg" }));
    assert_eq!(session.object(7), Some(Bound { kind: ObjectKind::Image, context: RenderContext::Root }));
    assert_eq!(session.object(9), None);
}

#[test]
fn creation_verdicts() {
    let creations = vec![
        (Command::CreateShader { slot: 0, shader_type: glow::VERTEX_SHADER }, ObjectKind::Shader),
        (Command::CreateProgram { slot: 0 }, ObjectKind::Program),
        (Command::CreateVertexArray { slot: 0 }, ObjectKind::VertexArray),
        (Command::CreateBuffer { slot: 0 }, ObjectKind::Buffer),
        (Command::CreateTexture { slot: 0 }, ObjectKind::Texture),
        (Command::CreateFramebuffer { slot: 0 }, ObjectKind::Framebuffer),
        (Command::CreateRenderbuffer { slot: 0 }, ObjectKind::Renderbuffer),
    ];
    for (command, kind) in creations {
        assert_eq!(command.expectation(), Expectation::Creation(kind));
        assert_eq!(judge(command, Reply::Created), Verdict::Proceed);
        assert_eq!(
            judge(command, Reply::Refused("out of names".to_string())),
            Verdict::Fail(Failure::ObjectCreation { kind, reason: "out of names".to_string() })
        );
        assert_eq!(judge(command, Reply::Done), Verdict::Fail(Failure::UnexpectedReply(command)));
    }
}

#[test]
fn framebuffer_status_verdicts() {
    let check = Command::CheckFramebufferStatus { target: glow::DRAW_FRAMEBUFFER };
    assert_eq!(judge(check, Reply::Code(glow::FRAMEBUFFER_COMPLETE)), Verdict::Proceed);
    assert_eq!(
        judge(check, Reply::Code(glow::FRAMEBUFFER_INCOMPLETE_ATTACHMENT)),
        Verdict::Fail(Failure::IncompleteFramebuffer(glow::FRAMEBUFFER_INCOMPLETE_ATTACHMENT))
    );
    assert_eq!(
        judge(check, Reply::Code(!glow::FRAMEBUFFER_COMPLETE)),
        Verdict::Fail(Failure::IncompleteFramebuffer(!glow::FRAMEBUFFER_COMPLETE))
    );
    assert_eq!(judge(check, Reply::Code(0)), Verdict::Fail(Failure::IncompleteFramebuffer(0)));
}

#[test]
fn incomplete_framebuffer_ends_the_frame() {
    let mut session = Session::new();
    let mut frames = frames_of::<Framebuffers01>(1).into_iter();
    let (_, last) = carry_out(&mut session, frames.next().unwrap(), &success);
    assert_eq!(last, Step::Finished);
    let (issued, last) = carry_out(&mut session, frames.next().unwrap(), &|command| match command {
        Command::CheckFramebufferStatus { .. } => Reply::Code(glow::FRAMEBUFFER_UNSUPPORTED),
        other => success(other),
    });
    assert_eq!(last, Step::Failed(Failure::IncompleteFramebuffer(glow::FRAMEBUFFER_UNSUPPORTED)));
    assert_eq!(issued.len(), 7);
}

#[test]
fn error_code_verdicts() {
    assert_eq!(judge(Command::GetError, Reply::Code(glow::NO_ERROR)), Verdict::Proceed);
    let coded = vec![
        (glow::INVALID_ENUM, Error::InvalidEnum),
        (glow::INVALID_VALUE, Error::InvalidValue),
        (glow::INVALID_OPERATION, Error::InvalidOperation),
        (glow::INVALID_FRAMEBUFFER_OPERATION, Error::InvalidFramebufferOperation),
        (glow::OUT_OF_MEMORY, Error::OutOfMemory),
        (0xFFFF, Error::UnknownError),
    ];
    for (code, error) in coded {
        assert_eq!(
            judge(Command::GetError, Reply::Code(code)),
            Verdict::Fail(Failure::Driver(error))
        );
    }
}

#[test]
fn driver_error_after_the_blit_ends_the_frame() {
    let mut session = Session::new();
    let mut frames = frames_of::<Framebuffers02>(1).into_iter();
    let (_, last) = carry_out(&mut session, frames.next().unwrap(), &success);
    assert_eq!(last, Step::Finished);
    let (issued, last) = carry_out(&mut session, frames.next().unwrap(), &|command| match command {
        Command::GetError => Reply::Code(glow::INVALID_OPERATION),
        other => success(other),
    });
    assert_eq!(last, Step::Failed(Failure::Driver(Error::InvalidOperation)));
    assert_eq!(issued.len(), 20);
}

#[test]
fn context_verdicts() {
    let switch = Command::MakeCurrent { context: RenderContext::Surface };
    assert_eq!(judge(switch, Reply::Done), Verdict::Proceed);
    assert_eq!(
        judge(switch, Reply::Refused("lost".to_string())),
        Verdict::Fail(Failure::Context("lost".to_string()))
    );
}

#[test]
fn plain_commands_expect_completion() {
    let plain = vec![
        Command::CompileShader { shader: 0 },
        Command::Clear { mask: glow::COLOR_BUFFER_BIT },
        Command::DrawArrays { mode: glow::TRIANGLES, first: 0, count: 3 },
        Command::BufferData { target: glow::ARRAY_BUFFER, data: 0, usage: glow::STATIC_DRAW },
        Command::StartTimer { slot: 0 },
        Command::Uniform1Elapsed { location: 0, timer: 1 },
    ];
    for command in plain {
        assert_eq!(command.expectation(), Expectation::Completion);
        assert_eq!(judge(command, Reply::Done), Verdict::Proceed);
        assert_eq!(judge(command, Reply::Created), Verdict::Fail(Failure::UnexpectedReply(command)));
        assert_eq!(
            judge(command, Reply::Status(true)),
            Verdict::Fail(Failure::UnexpectedReply(command))
        );
    }
}

#[test]
fn command_that_names_an_unbound_slot_is_not_issued() {
    let mut session = Session::new();
    let (issued, last) = carry_out(
        &mut session,
        frame_of(vec![Command::CreateProgram { slot: 0 }, Command::LinkProgram { program: 1 }]),
        &success,
    );
    assert_eq!(issued, vec![Command::CreateProgram { slot: 0 }]);
    assert_eq!(last, Step::Failed(Failure::InvalidCommand(Command::LinkProgram { program: 1 })));
}

#[test]
fn command_that_names_a_slot_of_another_kind_is_not_issued() {
    let mut session = Session::new();
    let (issued, last) = carry_out(
        &mut session,
        frame_of(vec![Command::CreateBuffer { slot: 0 }, Command::CompileShader { shader: 0 }]),
        &success,
    );
    assert_eq!(issued.len(), 1);
    assert_eq!(last, Step::Failed(Failure::InvalidCommand(Command::CompileShader { shader: 0 })));
}

#[test]
fn command_that_binds_a_slot_out_of_order_is_not_issued() {
    let mut session = Session::new();
    let (issued, last) =
        carry_out(&mut session, frame_of(vec![Command::CreateBuffer { slot: 1 }]), &success);
    assert!(issued.is_empty());
    assert_eq!(last, Step::Failed(Failure::InvalidCommand(Command::CreateBuffer { slot: 1 })));
}

#[test]
fn deleted_object_cannot_be_used_again() {
    let mut session = Session::new();
    let (issued, last) = carry_out(
        &mut session,
        frame_of(vec![
            Command::CreateShader { slot: 0, shader_type: glow::VERTEX_SHADER },
            Command::DeleteShader { shader: 0 },
            Command::CompileShader { shader: 0 },
        ]),
        &success,
    );
    assert_eq!(issued.len(), 2);
    assert_eq!(last, Step::Failed(Failure::InvalidCommand(Command::CompileShader { shader: 0 })));
    assert_eq!(
        session.object(0),
        Some(Bound { kind: ObjectKind::Deleted, context: RenderContext::Root })
    );
}

#[test]
fn upload_needs_its_data_block() {
    let upload = Command::BufferData { target: glow::ARRAY_BUFFER, data: 1, usage: glow::STATIC_DRAW };
    let mut session = Session::new();
    assert!(session.submit(Frame { commands: vec![upload], data: vec![vec![1, 2, 3]] }));
    assert_eq!(session.data(0), Some(&vec![1, 2, 3]));
    assert_eq!(session.data(1), None);
    assert_eq!(session.advance(None), Step::Failed(Failure::InvalidCommand(upload)));
}

#[test]
fn upload_reads_the_data_block_of_its_frame() {
    let upload = Command::BufferData { target: glow::ARRAY_BUFFER, data: 1, usage: glow::STATIC_DRAW };
    let mut session = Session::new();
    assert!(session.submit(Frame { commands: vec![upload], data: vec![vec![1], vec![2, 3]] }));
    assert_eq!(session.advance(None), Step::Issue(upload));
    assert_eq!(session.data(1), Some(&vec![2, 3]));
    assert_eq!(session.advance(Some(Reply::Done)), Step::Finished);
}

#[test]
fn framebuffer_cannot_be_used_in_another_context() {
    let mut session = Session::new();
    let bind = Command::BindFramebuffer { target: glow::READ_FRAMEBUFFER, framebuffer: Some(0) };
    let (issued, last) = carry_out(
        &mut session,
        frame_of(vec![
            Command::CreateFramebuffer { slot: 0 },
            Command::MakeCurrent { context: RenderContext::Surface },
            bind,
        ]),
        &success,
    );
    assert_eq!(issued.len(), 2);
    assert_eq!(last, Step::Failed(Failure::InvalidCommand(bind)));
}

#[test]
fn framebuffer_cannot_be_deleted_in_another_context() {
    let mut session = Session::new();
    let delete = Command::DeleteFramebuffer { framebuffer: 0 };
    let (_, last) = carry_out(
        &mut session,
        frame_of(vec![
            Command::MakeCurrent { context: RenderContext::Surface },
            Command::CreateFramebuffer { slot: 0 },
            Command::MakeCurrent { context: RenderContext::Root },
            delete,
        ]),
        &success,
    );
    assert_eq!(last, Step::Failed(Failure::InvalidCommand(delete)));
    assert_eq!(
        session.object(0),
        Some(Bound { kind: ObjectKind::Framebuffer, context: RenderContext::Surface })
    );
}

#[test]
fn renderbuffer_is_shared_between_contexts() {
    let mut session = Session::new();
    let (issued, last) = carry_out(
        &mut session,
        frame_of(vec![
            Command::CreateRenderbuffer { slot: 0 },
            Command::MakeCurrent { context: RenderContext::Surface },
            Command::BindRenderbuffer { target: glow::RENDERBUFFER, renderbuffer: Some(0) },
            Command::BindFramebuffer { target: glow::DRAW_FRAMEBUFFER, framebuffer: None },
        ]),
        &success,
    );
    assert_eq!(issued.len(), 4);
    assert_eq!(last, Step::Finished);
}

#[test]
fn reply_out_of_turn_halts_the_session() {
    let mut session = Session::new();
    assert!(session.submit(frame_of(vec![Command::GetError])));
    assert_eq!(session.advance(Some(Reply::Done)), Step::Failed(Failure::OutOfTurn));
    assert_eq!(session.advance(None), Step::Failed(Failure::Halted));
}

#[test]
fn missing_reply_halts_the_session() {
    let mut session = Session::new();
    assert!(session.submit(frame_of(vec![Command::GetError])));
    assert_eq!(session.advance(None), Step::Issue(Command::GetError));
    assert_eq!(session.advance(None), Step::Failed(Failure::OutOfTurn));
    assert_eq!(session.advance(Some(Reply::Code(0))), Step::Failed(Failure::Halted));
}

#[test]
fn unexpected_reply_halts_the_session() {
    let mut session = Session::new();
    assert!(session.submit(frame_of(vec![Command::GetError])));
    assert_eq!(session.advance(None), Step::Issue(Command::GetError));
    assert_eq!(
        session.advance(Some(Reply::Done)),
        Step::Failed(Failure::UnexpectedReply(Command::GetError))
    );
    assert!(!session.submit(frame_of(vec![])));
}

#[test]
fn busy_session_refuses_a_frame() {
    let mut session = Session::new();
    assert!(session.submit(frame_of(vec![Command::GetError, Command::Clear { mask: 1 }])));
    assert!(!session.submit(frame_of(vec![Command::Clear { mask: 2 }])));
    assert_eq!(session.advance(None), Step::Issue(Command::GetError));
    assert!(!session.submit(frame_of(vec![Command::Clear { mask: 2 }])));
    assert_eq!(
        session.advance(Some(Reply::Code(glow::NO_ERROR))),
        Step::Issue(Command::Clear { mask: 1 })
    );
    assert_eq!(session.advance(Some(Reply::Done)), Step::Finished);
    assert!(session.submit(frame_of(vec![Command::Clear { mask: 2 }])));
    assert_eq!(session.advance(None), Step::Issue(Command::Clear { mask: 2 }));
}

#[test]
fn slots_stay_bound_from_frame_to_frame() {
    let mut session = Session::new();
    let (_, last) =
        carry_out(&mut session, frame_of(vec![Command::CreateProgram { slot: 0 }]), &success);
    assert_eq!(last, Step::Finished);
    assert_eq!(
        session.object(0),
        Some(Bound { kind: ObjectKind::Program, context: RenderContext::Root })
    );
    let (issued, last) = carry_out(
        &mut session,
        frame_of(vec![Command::UseProgram { program: Some(0) }, Command::UseProgram { program: None }]),
        &success,
    );
    assert_eq!(issued.len(), 2);
    assert_eq!(last, Step::Finished);
}

#[test]
fn refused_creation_binds_nothing() {
    let mut session = Session::new();
    let (_, last) = carry_out(&mut session, frame_of(vec![Command::CreateTexture { slot: 0 }]), &|_| {
        Reply::Refused("no memory".to_string())
    });
    assert_eq!(
        last,
        Step::Failed(Failure::ObjectCreation {
            kind: ObjectKind::Texture,
            reason: "no memory".to_string()
        })
    );
    assert_eq!(session.object(0), None);
}
