//! An RGB image held as plain values: its dimensions and its row-major pixel bytes.
use vstd::prelude::*;

verus! {

/// Why an image was refused.
#[derive(Debug, Clone, Copy, PartialEq, Eq, Structural)]
pub enum FrameError {
    /// A zero width or height, or a pixel buffer whose length is not width * height * 3.
    InvalidImageDimensions,
}

/// Whether `width`, `height` and a buffer of `len` bytes describe an RGB image:
/// at least one pixel, three bytes per pixel, row-major, no padding.
pub open spec fn valid_dimensions(width: u32, height: u32, len: int) -> bool {
    &&& width >= 1
    &&& height >= 1
    &&& len == width * height * 3
}

/// An RGB image with 8-bit channels, three bytes per pixel in row-major order.
pub struct RgbFrame {
    width: u32,
    height: u32,
    pixels: Vec<u8>,
}

impl RgbFrame {
    pub closed spec fn spec_width(&self) -> u32 {
        self.width
    }

    pub closed spec fn spec_height(&self) -> u32 {
        self.height
    }

    pub closed spec fn spec_pixels(&self) -> Seq<u8> {
        self.pixels@
    }

    /// The frame's dimensions agree with its pixel buffer.
    pub open spec fn wf(&self) -> bool {
        valid_dimensions(self.spec_width(), self.spec_height(), self.spec_pixels().len() as int)
    }

    /// Builds a frame from its dimensions and pixel bytes, refusing a shape that
    /// does not describe an image.
    pub fn from_vec(width: u32, height: u32, pixels: Vec<u8>) -> (r: Result<RgbFrame, FrameError>)
        ensures
            valid_dimensions(width, height, pixels@.len() as int) <==> r is Ok,
            r matches Ok(f) ==> f.wf() && f.spec_width() == width && f.spec_height() == height
                && f.spec_pixels() == pixels@,
            r matches Err(e) ==> e == FrameError::InvalidImageDimensions,
    {
        let w: u128 = width as u128;
        let h: u128 = height as u128;
        assert(w * h <= 0xFFFF_FFFFu128 * 0xFFFF_FFFFu128) by (nonlinear_arith)
            requires
                w <= 0xFFFF_FFFFu128,
                h <= 0xFFFF_FFFFu128,
        ;
        let expected: u128 = w * h * 3;
        if width == 0 || height == 0 || pixels.len() as u128 != expected {
            Err(FrameError::InvalidImageDimensions)
        } else {
            Ok(RgbFrame { width, height, pixels })
        }
    }

    pub fn width(&self) -> (r: u32)
        ensures
            r == self.spec_width(),
    {
        self.width
    }

    pub fn height(&self) -> (r: u32)
        ensures
            r == self.spec_height(),
    {
        self.height
    }

    pub fn pixels(&self) -> (r: &Vec<u8>)
        ensures
            r@ == self.spec_pixels(),
    {
        &self.pixels
    }
}

} // verus!
