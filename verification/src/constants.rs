//! The OpenGL enumeration values that the library's commands carry.

use vstd::prelude::*;

verus! {

/// Error code: no error has been recorded.
pub const NO_ERROR: u32 = 0;

/// Error code: an enumeration argument is not acceptable.
pub const INVALID_ENUM: u32 = 0x0500;

/// Error code: a numeric argument is out of range.
pub const INVALID_VALUE: u32 = 0x0501;

/// Error code: the operation is not allowed in the current state.
pub const INVALID_OPERATION: u32 = 0x0502;

/// Error code: the driver ran out of memory.
pub const OUT_OF_MEMORY: u32 = 0x0505;

/// Error code: the framebuffer read from or drawn to is not complete.
pub const INVALID_FRAMEBUFFER_OPERATION: u32 = 0x0506;

/// Shader stage that runs once per vertex.
pub const VERTEX_SHADER: u32 = 0x8B31;

/// Shader stage that runs once per fragment.
pub const FRAGMENT_SHADER: u32 = 0x8B30;

/// Buffer target for vertex attributes.
pub const ARRAY_BUFFER: u32 = 0x8892;

/// Buffer target for vertex indices.
pub const ELEMENT_ARRAY_BUFFER: u32 = 0x8893;

/// Usage hint: written once, drawn from many times.
pub const STATIC_DRAW: u32 = 0x88E4;

/// Component type: unsigned 8-bit integer.
pub const UNSIGNED_BYTE: u32 = 0x1401;

/// Component type: unsigned 32-bit integer.
pub const UNSIGNED_INT: u32 = 0x1405;

/// Component type: 32-bit floating point.
pub const FLOAT: u32 = 0x1406;

/// Primitive mode: every three vertices form a triangle.
pub const TRIANGLES: u32 = 0x0004;

/// Clear mask bit of the color buffer.
pub const COLOR_BUFFER_BIT: u32 = 0x0000_4000;

/// Texture unit zero.
pub const TEXTURE0: u32 = 0x84C0;

/// Texture unit one.
pub const TEXTURE1: u32 = 0x84C1;

/// Texture target for two-dimensional images.
pub const TEXTURE_2D: u32 = 0x0DE1;

/// Texture parameter: magnification filter.
pub const TEXTURE_MAG_FILTER: u32 = 0x2800;

/// Texture parameter: minification filter.
pub const TEXTURE_MIN_FILTER: u32 = 0x2801;

/// Texture parameter: wrap mode along the first coordinate.
pub const TEXTURE_WRAP_S: u32 = 0x2802;

/// Texture parameter: wrap mode along the second coordinate.
pub const TEXTURE_WRAP_T: u32 = 0x2803;

/// Wrap mode: the image repeats.
pub const REPEAT: u32 = 0x2901;

/// Filter: weighted average of the nearest texels.
pub const LINEAR: u32 = 0x2601;

/// Pixel format: red, green, blue.
pub const RGB: u32 = 0x1907;

/// Pixel format: red, green, blue, alpha.
pub const RGBA: u32 = 0x1908;

/// Framebuffer target that is read from.
pub const READ_FRAMEBUFFER: u32 = 0x8CA8;

/// Framebuffer target that is drawn to.
pub const DRAW_FRAMEBUFFER: u32 = 0x8CA9;

/// Renderbuffer target.
pub const RENDERBUFFER: u32 = 0x8D41;

/// First color attachment point of a framebuffer.
pub const COLOR_ATTACHMENT0: u32 = 0x8CE0;

/// The size of one 32-bit float in bytes.
pub const F32_SIZE: i32 = 4;

/// Status of a framebuffer that can be rendered to.
pub const FRAMEBUFFER_COMPLETE: u32 = 0x8CD5;

} // verus!
