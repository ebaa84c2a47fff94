//! The ways in which carrying out a frame can fail.

use crate::command::{Command, ObjectKind};
use crate::error::Error;
use crate::image::{ImageInfo, PixelLayout};
use vstd::prelude::*;

verus! {

/// Why a session has come to an end before its frame was carried out. Every
/// failure is final: nothing is retried.
#[derive(Clone, Debug, PartialEq, Eq)]
pub enum Failure {
    /// A rendering context could not be made current; with the reason given
    /// by the windowing system.
    Context(String),
    /// The driver could not create an object; with the driver's reason.
    ObjectCreation { kind: ObjectKind, reason: String },
    /// A shader did not compile; with the driver's log.
    ShaderCompile(String),
    /// A program did not link; with the driver's log.
    ProgramLink(String),
    /// The program has no active uniform of this name.
    NoSuchUniform(&'static str),
    /// The image file could not be read or decoded; with the decoder's
    /// reason.
    ImageUnreadable { path: &'static str, reason: String },
    /// The image has a pixel layout that cannot be uploaded as a texture.
    UnsupportedImageFormat(PixelLayout),
    /// The decoder delivered an image whose pixel buffer does not hold width
    /// times height pixels, or whose size the driver cannot be told.
    MalformedImage { path: &'static str, image: ImageInfo },
    /// A framebuffer is not complete; with the status the driver reported.
    IncompleteFramebuffer(u32),
    /// The driver has recorded an error.
    Driver(Error),
    /// A command names a slot that is not bound to an object of the kind it
    /// needs, binds a slot that is not the next free one, or reads a data
    /// block that its frame does not have.
    InvalidCommand(Command),
    /// The backend answered a command with a reply of the wrong kind.
    UnexpectedReply(Command),
    /// The backend sent a reply when no command was waiting for one, or none
    /// when one was.
    OutOfTurn,
    /// The session has failed before.
    Halted,
}

impl Failure {
    /// The exit code that the failure is reported with: one for a shader that
    /// does not compile and for a program that does not link. Every other
    /// failure aborts the process without a code of its own.
    pub open spec fn exit_code_spec(self) -> Option<i32> {
        match self {
            Failure::ShaderCompile(_) => Some(1i32),
            Failure::ProgramLink(_) => Some(1i32),
            _ => None,
        }
    }

    /// Computes `exit_code_spec`.
    pub fn exit_code(&self) -> (code: Option<i32>)
        ensures
            code == self.exit_code_spec(),
    {
        match self {
            Failure::ShaderCompile(_) => Some(1),
            Failure::ProgramLink(_) => Some(1),
            _ => None,
        }
    }
}

} // verus!
