//! Properties of the display buffer that hold across thresholds and calls.
use vstd::prelude::*;
use crate::frame::RgbFrame;
use crate::convert::display_pixels;
use crate::oled::{brightness, group_bits, is_lit, oled_byte, oled_frame, OLED_BYTES, OLED_RGB_LEN};

verus! {

proof fn lemma_group_monotone(pixels: Seq<u8>, t1: u8, t2: u8, start: int, n: nat)
    requires
        t1 > t2,
    ensures
        group_bits(pixels, t1, start, n) & group_bits(pixels, t2, start, n)
            == group_bits(pixels, t1, start, n),
    decreases n,
{
    if n > 0 {
        lemma_group_monotone(pixels, t1, t2, start, (n - 1) as nat);
        let a = group_bits(pixels, t1, start, (n - 1) as nat);
        let b = group_bits(pixels, t2, start, (n - 1) as nat);
        let m = 0x80u8 >> (((n - 1) as int) as u8);
        assert((a & b) == a ==> ((a | m) & (b | m)) == (a | m)) by (bit_vector);
        assert((a & b) == a ==> (a & (b | m)) == a) by (bit_vector);
        assert(is_lit(pixels, t1, start + n - 1) ==> is_lit(pixels, t2, start + n - 1));
    } else {
        assert(0u8 & 0u8 == 0u8) by (bit_vector);
    }
}

/// Raising the threshold only clears bits: for `t1 > t2`, every bit set in the
/// buffer under `t1` is also set in the buffer under `t2`.
pub proof fn lemma_threshold_monotone(pixels: Seq<u8>, t1: u8, t2: u8)
    requires
        t1 > t2,
    ensures
        forall|k: int|
            0 <= k < OLED_BYTES ==> #[trigger] oled_frame(pixels, t1)[k] & oled_frame(pixels, t2)[k]
                == oled_frame(pixels, t1)[k],
{
    assert forall|k: int| 0 <= k < OLED_BYTES implies #[trigger] oled_frame(pixels, t1)[k] & oled_frame(
        pixels,
        t2,
    )[k] == oled_frame(pixels, t1)[k] by {
        lemma_group_monotone(pixels, t1, t2, 8 * k, 8);
    }
}

/// An image whose 128x64 pixels all have the brightness `level` gives a buffer
/// of all 0xFF bytes when `level` is above the threshold, and of all zero bytes
/// otherwise.
pub proof fn lemma_uniform_brightness(pixels: Seq<u8>, threshold: u8, level: int)
    requires
        pixels.len() == OLED_RGB_LEN,
        forall|p: int| 0 <= p < OLED_RGB_LEN / 3 ==> #[trigger] brightness(pixels, p) == level,
    ensures
        level > threshold ==> oled_frame(pixels, threshold) == Seq::new(OLED_BYTES as nat, |k: int| 0xFFu8),
        level <= threshold ==> oled_frame(pixels, threshold) == Seq::new(OLED_BYTES as nat, |k: int| 0u8),
{
    let lit = level > threshold;
    assert forall|k: int| 0 <= k < OLED_BYTES implies #[trigger] oled_byte(pixels, threshold, k)
        == if lit { 0xFFu8 } else { 0u8 } by {
        assert(brightness(pixels, 8 * k + 0) == level);
        assert(brightness(pixels, 8 * k + 1) == level);
        assert(brightness(pixels, 8 * k + 2) == level);
        assert(brightness(pixels, 8 * k + 3) == level);
        assert(brightness(pixels, 8 * k + 4) == level);
        assert(brightness(pixels, 8 * k + 5) == level);
        assert(brightness(pixels, 8 * k + 6) == level);
        assert(brightness(pixels, 8 * k + 7) == level);
        assert(is_lit(pixels, threshold, 8 * k + 0) == lit);
        assert(is_lit(pixels, threshold, 8 * k + 1) == lit);
        assert(is_lit(pixels, threshold, 8 * k + 2) == lit);
        assert(is_lit(pixels, threshold, 8 * k + 3) == lit);
        assert(is_lit(pixels, threshold, 8 * k + 4) == lit);
        assert(is_lit(pixels, threshold, 8 * k + 5) == lit);
        assert(is_lit(pixels, threshold, 8 * k + 6) == lit);
        assert(is_lit(pixels, threshold, 8 * k + 7) == lit);
        reveal_with_fuel(group_bits, 9);
        assert(0u8 | (0x80u8 >> 0u8) | (0x80u8 >> 1u8) | (0x80u8 >> 2u8) | (0x80u8 >> 3u8) | (0x80u8
            >> 4u8) | (0x80u8 >> 5u8) | (0x80u8 >> 6u8) | (0x80u8 >> 7u8) == 0xFFu8) by (bit_vector);
    }
    if lit {
        assert(oled_frame(pixels, threshold) =~= Seq::new(OLED_BYTES as nat, |k: int| 0xFFu8));
    } else {
        assert(oled_frame(pixels, threshold) =~= Seq::new(OLED_BYTES as nat, |k: int| 0u8));
    }
}

/// Converting the same image with the same threshold twice gives the same bytes:
/// the buffer is a function of the two inputs alone.
pub proof fn lemma_conversion_repeatable(frame: &RgbFrame, threshold: u8, first: Seq<u8>, second: Seq<u8>)
    requires
        frame.wf(),
        first == oled_frame(display_pixels(frame), threshold),
        second == oled_frame(display_pixels(frame), threshold),
    ensures
        first == second,
{
}

} // verus!
