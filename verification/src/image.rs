//! What the library reads of a decoded image.
//!
//! The pixels of an image stay with the backend. The session gets to know the
//! layout and the size of the image and decides whether the image can be
//! uploaded as a texture.

use crate::constants::{RGB, RGBA};
use vstd::prelude::*;

verus! {

/// How a decoded image lays out the channels of a pixel.
#[derive(Copy, Clone, Debug, PartialEq, Eq, Structural)]
pub enum PixelLayout {
    /// One gray channel of eight bits.
    Luma8,
    /// Gray and alpha, eight bits each.
    LumaAlpha8,
    /// Red, green and blue, eight bits each.
    Rgb8,
    /// Red, green, blue and alpha, eight bits each.
    Rgba8,
    /// Any other layout.
    Other,
}

/// What a decoder reports of an image: its layout, its size in pixels, and
/// the number of bytes in its pixel buffer.
#[derive(Copy, Clone, Debug, PartialEq, Eq, Structural)]
pub struct ImageInfo {
    pub layout: PixelLayout,
    pub width: u32,
    pub height: u32,
    pub bytes: usize,
}

impl PixelLayout {
    /// The pixel format under which an image of this layout is uploaded as a
    /// texture: `RGB` for three channels of eight bits, `RGBA` for four. No
    /// other layout can be uploaded.
    pub open spec fn format(self) -> Option<u32> {
        match self {
            PixelLayout::Rgb8 => Some(RGB),
            PixelLayout::Rgba8 => Some(RGBA),
            _ => None,
        }
    }

    /// Computes `format`.
    pub fn texture_format(&self) -> (format: Option<u32>)
        ensures
            format == self.format(),
    {
        match self {
            PixelLayout::Rgb8 => Some(RGB),
            PixelLayout::Rgba8 => Some(RGBA),
            _ => None,
        }
    }

    /// The number of bytes that one pixel takes; zero for a layout that is
    /// not known.
    pub open spec fn pixel_size(self) -> nat {
        match self {
            PixelLayout::Luma8 => 1,
            PixelLayout::LumaAlpha8 => 2,
            PixelLayout::Rgb8 => 3,
            PixelLayout::Rgba8 => 4,
            PixelLayout::Other => 0,
        }
    }

    /// Computes `pixel_size`.
    pub fn bytes_per_pixel(&self) -> (size: u64)
        ensures
            size == self.pixel_size(),
    {
        match self {
            PixelLayout::Luma8 => 1,
            PixelLayout::LumaAlpha8 => 2,
            PixelLayout::Rgb8 => 3,
            PixelLayout::Rgba8 => 4,
            PixelLayout::Other => 0,
        }
    }
}

impl ImageInfo {
    /// The image is what a decoder has to deliver: a buffer of exactly width
    /// times height pixels, with a width and a height that the driver can be
    /// told, that is, that fit a signed 32-bit integer.
    pub open spec fn well_formed(self) -> bool {
        &&& self.width <= i32::MAX
        &&& self.height <= i32::MAX
        &&& self.bytes == self.width * self.height * self.layout.pixel_size()
    }

    /// Computes `well_formed`.
    pub fn is_well_formed(&self) -> (ok: bool)
        ensures
            ok == self.well_formed(),
    {
        if self.width > 0x7FFF_FFFF || self.height > 0x7FFF_FFFF {
            return false;
        }
        let width: u64 = self.width as u64;
        let height: u64 = self.height as u64;
        let size: u64 = self.layout.bytes_per_pixel();
        assert(width * height <= 0x7FFF_FFFF * 0x7FFF_FFFF) by (nonlinear_arith)
            requires
                width <= 0x7FFF_FFFF,
                height <= 0x7FFF_FFFF,
        ;
        let pixels: u64 = width * height;
        assert(pixels * size <= 0x7FFF_FFFF * 0x7FFF_FFFF * 4) by (nonlinear_arith)
            requires
                pixels <= 0x7FFF_FFFF * 0x7FFF_FFFF,
                size <= 4,
        ;
        self.bytes as u64 == pixels * size
    }
}

} // verus!
