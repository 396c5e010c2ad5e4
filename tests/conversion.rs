use image_to_oled::convert::to_oled_bytes;
use image_to_oled::frame::{FrameError, RgbFrame};
use image_to_oled::oled::pack_oled_bytes;

fn uniform_frame(width: u32, height: u32, value: u8) -> RgbFrame {
    RgbFrame::from_vec(width, height, vec![value; (width * height * 3) as usize]).unwrap()
}

#[test]
fn it_returns_a_byte_vec_of_size_1024_for_any_size_frame_buffer() {
    for i in [1, 4, 8, 16, 200, 400, 1000, 10000] {
        let frame_buffer = RgbFrame::from_vec(i, i, vec![0; (i * i * 3) as usize]).unwrap();
        let result = to_oled_bytes(&frame_buffer, 20);

        assert_eq!(result.len(), 1024);
    }
}

#[test]
fn it_uses_brightness_threshold_to_determine_number() {
    let frame_buffer = RgbFrame::from_vec(2, 2, vec![30; 12]).unwrap();
    let black_results = to_oled_bytes(&frame_buffer, 30);

    assert_eq!(black_results, vec![0; 1024]);
    assert_eq!(black_results.len(), 1024);

    let white_results = to_oled_bytes(&frame_buffer, 20);

    assert_eq!(white_results, vec![255; 1024]);
    assert_eq!(white_results.len(), 1024);
}

#[test]
fn single_pixel_image_is_stretched_to_full_buffer() {
    let frame = RgbFrame::from_vec(1, 1, vec![200, 100, 0]).unwrap();
    assert_eq!(to_oled_bytes(&frame, 99), vec![255; 1024]);
    assert_eq!(to_oled_bytes(&frame, 100), vec![0; 1024]);
}

#[test]
fn large_black_image_at_top_threshold_is_dark() {
    let frame = uniform_frame(10000, 10000, 0);
    assert_eq!(to_oled_bytes(&frame, 255), vec![0; 1024]);
}

#[test]
fn two_column_image_splits_each_row() {
    let frame = RgbFrame::from_vec(2, 1, vec![0, 0, 0, 255, 255, 255]).unwrap();
    let out = to_oled_bytes(&frame, 128);
    for row in 0..64 {
        for byte in 0..16 {
            let expected = if byte < 8 { 0x00 } else { 0xFF };
            assert_eq!(out[row * 16 + byte], expected);
        }
    }
}

#[test]
fn repeated_conversion_gives_identical_bytes() {
    let pixels: Vec<u8> = (0..(7 * 5 * 3)).map(|v| (v * 37 % 256) as u8).collect();
    let frame = RgbFrame::from_vec(7, 5, pixels).unwrap();
    assert_eq!(to_oled_bytes(&frame, 90), to_oled_bytes(&frame, 90));
}

#[test]
fn higher_threshold_only_clears_bits() {
    let pixels: Vec<u8> = (0..(9 * 6 * 3)).map(|v| (v * 53 % 256) as u8).collect();
    let frame = RgbFrame::from_vec(9, 6, pixels).unwrap();
    let low = to_oled_bytes(&frame, 60);
    let high = to_oled_bytes(&frame, 150);
    for k in 0..1024 {
        assert_eq!(high[k] & low[k], high[k]);
    }
}

#[test]
fn malformed_shapes_are_refused() {
    assert_eq!(RgbFrame::from_vec(0, 2, vec![]).err(), Some(FrameError::InvalidImageDimensions));
    assert_eq!(RgbFrame::from_vec(2, 0, vec![]).err(), Some(FrameError::InvalidImageDimensions));
    assert_eq!(RgbFrame::from_vec(2, 2, vec![0; 11]).err(), Some(FrameError::InvalidImageDimensions));
    assert_eq!(RgbFrame::from_vec(2, 2, vec![0; 13]).err(), Some(FrameError::InvalidImageDimensions));
    let frame = RgbFrame::from_vec(3, 2, vec![1; 18]).unwrap();
    assert_eq!((frame.width(), frame.height(), frame.pixels().len()), (3, 2, 18));
}

#[test]
fn packing_puts_first_pixel_in_top_bit() {
    let mut pixels = vec![0u8; 24576];
    pixels[0] = 90;
    pixels[1] = 90;
    pixels[2] = 90;
    let last = 3 * 7;
    pixels[last] = 255;
    pixels[last + 1] = 255;
    pixels[last + 2] = 255;
    let out = pack_oled_bytes(&pixels, 29);
    assert_eq!(out.len(), 1024);
    assert_eq!(out[0], 0x81);
    assert!(out[1..].iter().all(|b| *b == 0));
}

#[test]
fn brightness_sums_channels_without_wrapping() {
    let mut pixels = vec![0u8; 24576];
    let p = 3 * (128 * 63 + 127);
    pixels[p] = 255;
    pixels[p + 1] = 255;
    pixels[p + 2] = 255;
    let out = pack_oled_bytes(&pixels, 254);
    assert_eq!(out[1023], 0x01);
    assert!(out[..1023].iter().all(|b| *b == 0));
}

#[test]
fn threshold_is_strictly_greater() {
    let mut pixels = vec![0u8; 24576];
    pixels[3 * 8] = 10;
    pixels[3 * 8 + 1] = 11;
    pixels[3 * 8 + 2] = 12;
    assert_eq!(pack_oled_bytes(&pixels, 11)[1], 0x00);
    assert_eq!(pack_oled_bytes(&pixels, 10)[1], 0x80);
}
