//! Decoding of the error codes that the graphics driver reports.

use crate::constants::{
    INVALID_ENUM, INVALID_FRAMEBUFFER_OPERATION, INVALID_OPERATION, INVALID_VALUE, NO_ERROR,
    OUT_OF_MEMORY,
};
use vstd::prelude::*;

verus! {

/// An error condition recorded by the graphics driver.
#[derive(Copy, Clone, Eq, PartialEq, Debug, Structural)]
pub enum Error {
    NoError,
    InvalidEnum,
    InvalidValue,
    InvalidOperation,
    InvalidFramebufferOperation,
    OutOfMemory,
    UnknownError,
}

impl Error {
    /// The error that a raw driver code stands for.
    pub open spec fn decode(error_code: u32) -> Error {
        if error_code == NO_ERROR {
            Error::NoError
        } else if error_code == INVALID_ENUM {
            Error::InvalidEnum
        } else if error_code == INVALID_VALUE {
            Error::InvalidValue
        } else if error_code == INVALID_OPERATION {
            Error::InvalidOperation
        } else if error_code == INVALID_FRAMEBUFFER_OPERATION {
            Error::InvalidFramebufferOperation
        } else if error_code == OUT_OF_MEMORY {
            Error::OutOfMemory
        } else {
            Error::UnknownError
        }
    }

    /// Decodes a raw driver error code. Codes outside the known set decode to
    /// `UnknownError`.
    pub fn from_error_code(error_code: u32) -> (error: Error)
        ensures
            error == Error::decode(error_code),
    {
        match error_code {
            NO_ERROR => Error::NoError,
            INVALID_ENUM => Error::InvalidEnum,
            INVALID_VALUE => Error::InvalidValue,
            INVALID_OPERATION => Error::InvalidOperation,
            INVALID_FRAMEBUFFER_OPERATION => Error::InvalidFramebufferOperation,
            OUT_OF_MEMORY => Error::OutOfMemory,
            _ => Error::UnknownError,
        }
    }
}

} // verus!
