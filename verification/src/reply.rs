//! What the backend reports back for a command, and what follows from it.

use crate::command::{Command, ObjectKind};
use crate::constants::{FRAMEBUFFER_COMPLETE, NO_ERROR};
use crate::error::Error;
use crate::failure::Failure;
use crate::image::ImageInfo;
use vstd::prelude::*;

verus! {

/// The backend's answer to one command.
#[derive(Clone, Debug, PartialEq, Eq)]
pub enum Reply {
    /// The command has been carried out and returns nothing.
    Done,
    /// The object has been created and is kept under the command's slot.
    Created,
    /// The command was refused; with the reason given.
    Refused(String),
    /// The status that was asked for: `true` for success.
    Status(bool),
    /// The log that was asked for.
    Log(String),
    /// The uniform exists.
    Found,
    /// The program has no active uniform of the name.
    Missing,
    /// The code that was asked for.
    Code(u32),
    /// The image has been decoded and is kept under the command's slot.
    Decoded(ImageInfo),
    /// The image file could not be read or decoded; with the reason given.
    Unreadable(String),
}

/// What a command wants to hear from the backend.
#[derive(Copy, Clone, Debug, PartialEq, Eq)]
pub enum Expectation {
    /// Nothing but that it is done.
    Completion,
    /// That an object of the kind has been created.
    Creation(ObjectKind),
    /// That the uniform of the name exists.
    Uniform(&'static str),
    /// That the image at the path has been decoded.
    Image(&'static str),
    /// Whether the shader in the slot has compiled.
    CompileStatus(usize),
    /// The log of a compilation that failed.
    CompileLog,
    /// Whether the program in the slot has linked.
    LinkStatus(usize),
    /// The log of a link that failed.
    LinkLog,
    /// The completeness status of a framebuffer.
    FramebufferStatus,
    /// The error code that the driver has recorded.
    ErrorCode,
    /// That a rendering context has been made current.
    CurrentContext,
}

/// What to do once a command has been answered.
#[derive(Clone, Debug, PartialEq, Eq)]
pub enum Verdict {
    /// Go on with the next command.
    Proceed,
    /// Issue this command next, before anything else.
    Ask(Command),
    /// Stop with this failure.
    Fail(Failure),
}

impl Command {
    /// What the command wants to hear.
    pub open spec fn expects(self) -> Expectation {
        match self {
            Command::CreateShader { .. } => Expectation::Creation(ObjectKind::Shader),
            Command::CreateProgram { .. } => Expectation::Creation(ObjectKind::Program),
            Command::CreateVertexArray { .. } => Expectation::Creation(ObjectKind::VertexArray),
            Command::CreateBuffer { .. } => Expectation::Creation(ObjectKind::Buffer),
            Command::CreateTexture { .. } => Expectation::Creation(ObjectKind::Texture),
            Command::CreateFramebuffer { .. } => Expectation::Creation(ObjectKind::Framebuffer),
            Command::CreateRenderbuffer { .. } => Expectation::Creation(ObjectKind::Renderbuffer),
            Command::GetUniformLocation { name, .. } => Expectation::Uniform(name),
            Command::Uniform1I32Named { name, .. } => Expectation::Uniform(name),
            Command::LoadImage { path, .. } => Expectation::Image(path),
            Command::GetShaderCompileStatus { shader } => Expectation::CompileStatus(shader),
            Command::GetShaderInfoLog { .. } => Expectation::CompileLog,
            Command::GetProgramLinkStatus { program } => Expectation::LinkStatus(program),
            Command::GetProgramInfoLog { .. } => Expectation::LinkLog,
            Command::CheckFramebufferStatus { .. } => Expectation::FramebufferStatus,
            Command::GetError => Expectation::ErrorCode,
            Command::MakeCurrent { .. } => Expectation::CurrentContext,
            _ => Expectation::Completion,
        }
    }

    /// Computes `expects`.
    pub fn expectation(&self) -> (expectation: Expectation)
        ensures
            expectation == self.expects(),
    {
        match *self {
            Command::CreateShader { .. } => Expectation::Creation(ObjectKind::Shader),
            Command::CreateProgram { .. } => Expectation::Creation(ObjectKind::Program),
            Command::CreateVertexArray { .. } => Expectation::Creation(ObjectKind::VertexArray),
            Command::CreateBuffer { .. } => Expectation::Creation(ObjectKind::Buffer),
            Command::CreateTexture { .. } => Expectation::Creation(ObjectKind::Texture),
            Command::CreateFramebuffer { .. } => Expectation::Creation(ObjectKind::Framebuffer),
            Command::CreateRenderbuffer { .. } => Expectation::Creation(ObjectKind::Renderbuffer),
            Command::GetUniformLocation { name, .. } => Expectation::Uniform(name),
            Command::Uniform1I32Named { name, .. } => Expectation::Uniform(name),
            Command::LoadImage { path, .. } => Expectation::Image(path),
            Command::GetShaderCompileStatus { shader } => Expectation::CompileStatus(shader),
            Command::GetShaderInfoLog { .. } => Expectation::CompileLog,
            Command::GetProgramLinkStatus { program } => Expectation::LinkStatus(program),
            Command::GetProgramInfoLog { .. } => Expectation::LinkLog,
            Command::CheckFramebufferStatus { .. } => Expectation::FramebufferStatus,
            Command::GetError => Expectation::ErrorCode,
            Command::MakeCurrent { .. } => Expectation::CurrentContext,
            _ => Expectation::Completion,
        }
    }
}

/// What follows when `command` has been answered with `reply`.
///
/// - A command that returns nothing proceeds when it is done.
/// - A creation proceeds when the object has been created, and fails with the
///   driver's reason when it was refused.
/// - A uniform that is missing fails with `NoSuchUniform`: a lookup never
///   succeeds silently.
/// - An image fails with `UnsupportedImageFormat` when its layout cannot be
///   uploaded, with `MalformedImage` when its pixel buffer does not fit its
///   size, and with `ImageUnreadable` when the file could not be decoded;
///   otherwise it proceeds.
/// - A compile or link status that reports failure asks for the log; the log
///   then fails with `ShaderCompile` or `ProgramLink`.
/// - A framebuffer status other than complete fails with
///   `IncompleteFramebuffer`.
/// - An error code other than `NO_ERROR` fails with the decoded error.
/// - A context that could not be made current fails with `Context`.
/// - A reply of any other kind fails with `UnexpectedReply`.
pub open spec fn verdict(command: Command, reply: Reply) -> Verdict {
    match (command.expects(), reply) {
        (Expectation::Completion, Reply::Done) => Verdict::Proceed,
        (Expectation::Creation(_), Reply::Created) => Verdict::Proceed,
        (Expectation::Creation(kind), Reply::Refused(reason)) => Verdict::Fail(
            Failure::ObjectCreation { kind, reason },
        ),
        (Expectation::Uniform(_), Reply::Found) => Verdict::Proceed,
        (Expectation::Uniform(name), Reply::Missing) => Verdict::Fail(Failure::NoSuchUniform(name)),
        (Expectation::Image(path), Reply::Decoded(image)) => if image.layout.format() is None {
            Verdict::Fail(Failure::UnsupportedImageFormat(image.layout))
        } else if !image.well_formed() {
            Verdict::Fail(Failure::MalformedImage { path, image })
        } else {
            Verdict::Proceed
        },
        (Expectation::Image(path), Reply::Unreadable(reason)) => Verdict::Fail(
            Failure::ImageUnreadable { path, reason },
        ),
        (Expectation::CompileStatus(shader), Reply::Status(compiled)) => if compiled {
            Verdict::Proceed
        } else {
            Verdict::Ask(Command::GetShaderInfoLog { shader })
        },
        (Expectation::CompileLog, Reply::Log(log)) => Verdict::Fail(Failure::ShaderCompile(log)),
        (Expectation::LinkStatus(program), Reply::Status(linked)) => if linked {
            Verdict::Proceed
        } else {
            Verdict::Ask(Command::GetProgramInfoLog { program })
        },
        (Expectation::LinkLog, Reply::Log(log)) => Verdict::Fail(Failure::ProgramLink(log)),
        (Expectation::FramebufferStatus, Reply::Code(status)) => if status == FRAMEBUFFER_COMPLETE {
            Verdict::Proceed
        } else {
            Verdict::Fail(Failure::IncompleteFramebuffer(status))
        },
        (Expectation::ErrorCode, Reply::Code(code)) => if code == NO_ERROR {
            Verdict::Proceed
        } else {
            Verdict::Fail(Failure::Driver(Error::decode(code)))
        },
        (Expectation::CurrentContext, Reply::Done) => Verdict::Proceed,
        (Expectation::CurrentContext, Reply::Refused(reason)) => Verdict::Fail(
            Failure::Context(reason),
        ),
        _ => Verdict::Fail(Failure::UnexpectedReply(command)),
    }
}

/// Asking for a uniform that the program does not have is never a silent
/// success: whatever command asked, the verdict is the failure
/// `NoSuchUniform` with the name that was asked for.
pub proof fn lemma_missing_uniform_fails(command: Command, name: &'static str)
    requires
        command.expects() == Expectation::Uniform(name),
    ensures
        verdict(command, Reply::Missing) == Verdict::Fail(Failure::NoSuchUniform(name)),
{
}

/// Decides what follows when `command` has been answered with `reply`.
pub fn judge(command: Command, reply: Reply) -> (outcome: Verdict)
    ensures
        outcome == verdict(command, reply),
{
    match (command.expectation(), reply) {
        (Expectation::Completion, Reply::Done) => Verdict::Proceed,
        (Expectation::Creation(_), Reply::Created) => Verdict::Proceed,
        (Expectation::Creation(kind), Reply::Refused(reason)) => Verdict::Fail(
            Failure::ObjectCreation { kind, reason },
        ),
        (Expectation::Uniform(_), Reply::Found) => Verdict::Proceed,
        (Expectation::Uniform(name), Reply::Missing) => Verdict::Fail(Failure::NoSuchUniform(name)),
        (Expectation::Image(path), Reply::Decoded(image)) => {
            if image.layout.texture_format().is_none() {
                Verdict::Fail(Failure::UnsupportedImageFormat(image.layout))
            } else if !image.is_well_formed() {
                Verdict::Fail(Failure::MalformedImage { path, image })
            } else {
                Verdict::Proceed
            }
        },
        (Expectation::Image(path), Reply::Unreadable(reason)) => Verdict::Fail(
            Failure::ImageUnreadable { path, reason },
        ),
        (Expectation::CompileStatus(shader), Reply::Status(compiled)) => {
            if compiled {
                Verdict::Proceed
            } else {
                Verdict::Ask(Command::GetShaderInfoLog { shader })
            }
        },
        (Expectation::CompileLog, Reply::Log(log)) => Verdict::Fail(Failure::ShaderCompile(log)),
        (Expectation::LinkStatus(program), Reply::Status(linked)) => {
            if linked {
                Verdict::Proceed
            } else {
                Verdict::Ask(Command::GetProgramInfoLog { program })
            }
        },
        (Expectation::LinkLog, Reply::Log(log)) => Verdict::Fail(Failure::ProgramLink(log)),
        (Expectation::FramebufferStatus, Reply::Code(status)) => {
            if status == FRAMEBUFFER_COMPLETE {
                Verdict::Proceed
            } else {
                Verdict::Fail(Failure::IncompleteFramebuffer(status))
            }
        },
        (Expectation::ErrorCode, Reply::Code(code)) => {
            if code == NO_ERROR {
                Verdict::Proceed
            } else {
                Verdict::Fail(Failure::Driver(Error::from_error_code(code)))
            }
        },
        (Expectation::CurrentContext, Reply::Done) => Verdict::Proceed,
        (Expectation::CurrentContext, Reply::Refused(reason)) => Verdict::Fail(
            Failure::Context(reason),
        ),
        _ => Verdict::Fail(Failure::UnexpectedReply(command)),
    }
}

} // verus!
