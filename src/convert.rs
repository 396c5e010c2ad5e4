//! The conversion of an RGB image of any size into the display buffer.
use vstd::prelude::*;
use crate::frame::RgbFrame;
use crate::oled::{oled_frame, pack_oled_bytes, OLED_WIDTH, OLED_HEIGHT, OLED_BYTES};
use crate::resize::{nearest_resized, resize_nearest};

verus! {

/// The pixel bytes of `frame` resampled to the display's 128x64 resolution.
pub open spec fn display_pixels(frame: &RgbFrame) -> Seq<u8> {
    nearest_resized(
        frame.spec_width(),
        frame.spec_height(),
        frame.spec_pixels(),
        OLED_WIDTH as u32,
        OLED_HEIGHT as u32,
    )
}

/// Converts an RGB image to the 1024-byte buffer of a 128x64 SSD1306 display:
/// the image is resized to 128x64 by nearest-neighbour sampling, then each
/// pixel whose channel average is above `brightness_threshold` becomes a set bit.
pub fn to_oled_bytes(frame_buffer: &RgbFrame, brightness_threshold: u8) -> (r: Vec<u8>)
    requires
        frame_buffer.wf(),
    ensures
        r@ == oled_frame(display_pixels(frame_buffer), brightness_threshold),
        r@.len() == OLED_BYTES,
{
    let resized = resize_nearest(
        frame_buffer.width(),
        frame_buffer.height(),
        frame_buffer.pixels(),
        OLED_WIDTH as u32,
        OLED_HEIGHT as u32,
    );
    pack_oled_bytes(&resized, brightness_threshold)
}

} // verus!
