//! Verified building blocks for small OpenGL programs.
//!
//! A scene never talks to the graphics driver. It records commands into a
//! [`context::Context`]; a [`window::Window`] decides when the scene is set
//! up, drawn and left, and hands what was recorded out frame by frame; a
//! [`session::Session`] carries a frame out, one command at a time, against a
//! backend that owns the driver, and decides from every reply of the backend
//! what comes next. The window system, the driver and the files on disk
//! belong to the program that uses the library.
//!
//! - [`bytes`]: the byte view of numeric sequences, for buffer uploads.
//! - [`constants`], [`error`], [`failure`], [`image`]: the values, error
//!   codes, failures and pixel layouts that commands and replies carry.
//! - [`command`], [`context`], [`handler`]: commands, the recording context,
//!   and the contract between a window and its scene.
//! - [`window`]: the life cycle of a window.
//! - [`reply`], [`session`], [`rehearsal`]: carrying frames out.
//! - [`shader`], [`mesh`], [`offscreen`]: steps that scenes share.
//! - [`hello_window`], [`hello_triangle`], [`shaders_01`], [`textures_01`],
//!   [`framebuffers_01`], [`framebuffers_02`]: the scenes.

pub mod bytes;
pub mod command;
pub mod constants;
pub mod context;
pub mod error;
pub mod failure;
pub mod framebuffers_01;
pub mod framebuffers_02;
pub mod handler;
pub mod hello_triangle;
pub mod hello_window;
pub mod image;
pub mod mesh;
pub mod offscreen;
pub mod rehearsal;
pub mod reply;
pub mod session;
pub mod shader;
pub mod shaders_01;
pub mod textures_01;
pub mod window;

pub use bytes::SliceAsBytes;
pub use error::Error;
pub use handler::RenderHandler;
pub use window::with_window;
