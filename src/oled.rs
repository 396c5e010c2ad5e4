//! Thresholding and bit packing of a 128x64 RGB image into the controller's
//! page-major byte layout.
use vstd::prelude::*;

verus! {

/// Width in pixels of the display.
pub const OLED_WIDTH: usize = 128;

/// Height in pixels of the display.
pub const OLED_HEIGHT: usize = 64;

/// Length in bytes of a display buffer: one bit per pixel.
pub const OLED_BYTES: usize = 1024;

/// Length in bytes of a 128x64 RGB image.
pub const OLED_RGB_LEN: usize = 24576;

/// Average of the three channels of pixel `p`, truncated. The sum is taken over
/// the integers, so a white pixel (255, 255, 255) has brightness 255.
pub open spec fn brightness(pixels: Seq<u8>, p: int) -> int {
    (pixels[3 * p] + pixels[3 * p + 1] + pixels[3 * p + 2]) / 3
}

/// Pixel `p` is lit when its brightness is strictly above the threshold.
pub open spec fn is_lit(pixels: Seq<u8>, threshold: u8, p: int) -> bool {
    brightness(pixels, p) > threshold
}

/// The byte with only the bit of position `b` of a group set, position 0 being bit 7.
pub open spec fn bit_mask(b: int) -> u8 {
    0x80u8 >> (b as u8)
}

/// The first `n` pixels from `start` packed MSB-first into a byte, the rest of
/// its bits zero.
pub open spec fn group_bits(pixels: Seq<u8>, threshold: u8, start: int, n: nat) -> u8
    decreases n,
{
    if n == 0 {
        0
    } else {
        let prev = group_bits(pixels, threshold, start, (n - 1) as nat);
        if is_lit(pixels, threshold, start + n - 1) {
            prev | bit_mask(n - 1)
        } else {
            prev
        }
    }
}

/// Byte `k` of the display buffer: pixels 8k to 8k+7 in raster order, the first in bit 7.
pub open spec fn oled_byte(pixels: Seq<u8>, threshold: u8, k: int) -> u8 {
    group_bits(pixels, threshold, 8 * k, 8)
}

/// The display buffer of a 128x64 RGB image.
pub open spec fn oled_frame(pixels: Seq<u8>, threshold: u8) -> Seq<u8> {
    Seq::new(OLED_BYTES as nat, |k: int| oled_byte(pixels, threshold, k))
}

proof fn lemma_mask_step(j: u8)
    requires
        j < 8,
    ensures
        j < 7 ==> (0x80u8 >> j) >> 1u8 == 0x80u8 >> ((j + 1) as u8),
        j == 7 ==> (0x80u8 >> j) >> 1u8 == 0,
        (0x80u8 >> j) != 0,
        j < 7 ==> (0x80u8 >> j) >> 1u8 != 0,
{
    assert(j < 7 ==> (0x80u8 >> j) >> 1u8 == 0x80u8 >> ((j + 1) as u8)) by (bit_vector);
    assert(j == 7 ==> (0x80u8 >> j) >> 1u8 == 0) by (bit_vector);
    assert(j < 8 ==> (0x80u8 >> j) != 0) by (bit_vector);
    assert(j < 7 ==> (0x80u8 >> j) >> 1u8 != 0) by (bit_vector);
}

/// Packs a 128x64 RGB image into the display buffer: a pixel is lit when the
/// average of its channels is above `brightness_threshold`; pixels are taken in
/// raster order, eight to a byte, the first in the most significant bit. A byte
/// is also closed at the end of a display row and at the last pixel, with its
/// unfilled bits zero.
pub fn pack_oled_bytes(pixels: &Vec<u8>, brightness_threshold: u8) -> (r: Vec<u8>)
    requires
        pixels@.len() == OLED_RGB_LEN,
    ensures
        r@ == oled_frame(pixels@, brightness_threshold),
{
    let n: usize = pixels.len() / 3;
    let mut out: Vec<u8> = Vec::new();
    let mut number: u8 = 0;
    let mut mask: u8 = 0x80;
    let mut p: usize = 0;
    assert(0x80u8 >> 0u8 == 0x80u8) by (bit_vector);
    while p < n
        invariant
            n == OLED_WIDTH * OLED_HEIGHT,
            pixels@.len() == 3 * n,
            p <= n,
            out@.len() == p / 8,
            forall|k: int| 0 <= k < out@.len() ==> out@[k] == oled_byte(pixels@, brightness_threshold, k),
            number == group_bits(pixels@, brightness_threshold, 8 * (p / 8), (p % 8) as nat),
            mask == bit_mask((p % 8) as int),
        decreases n - p,
    {
        let i: usize = 3 * p;
        let sum: u16 = pixels[i] as u16 + pixels[i + 1] as u16 + pixels[i + 2] as u16;
        let avg: u16 = sum / 3;
        let j: u8 = (p % 8) as u8;
        proof {
            lemma_mask_step(j);
        }
        assert(8 * (p / 8) + (p % 8) == p);
        if avg > brightness_threshold as u16 {
            number = number | mask;
        }
        assert(number == group_bits(pixels@, brightness_threshold, 8 * (p / 8), (p % 8 + 1) as nat));
        mask = mask >> 1;
        if (p + 1) % OLED_WIDTH == 0 || p + 1 == n {
            assert((p + 1) % 8 == 0);
            mask = 0;
        }
        if mask == 0 {
            assert(j == 7);
            out.push(number);
            number = 0;
            mask = 0x80;
            assert(0x80u8 >> 0u8 == 0x80u8) by (bit_vector);
            assert((p + 1) / 8 == p / 8 + 1 && (p + 1) % 8 == 0);
            assert(out@[out@.len() - 1] == oled_byte(pixels@, brightness_threshold, (p / 8) as int));
        } else {
            assert(j < 7);
            assert((p + 1) / 8 == p / 8 && (p + 1) % 8 == p % 8 + 1);
            assert(mask == 0x80u8 >> ((j + 1) as u8));
            assert(((p + 1) % 8) as int as u8 == (j + 1) as u8);
        }
        p = p + 1;
    }
    out
}

} // verus!
