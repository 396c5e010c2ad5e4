//! Nearest-neighbour resampling, done by the `image` crate.
use vstd::prelude::*;

verus! {

/// The pixel bytes that `image`'s nearest-neighbour resize makes of a
/// `width` x `height` RGB image with the bytes `pixels`, at `new_width` x `new_height`.
pub uninterp spec fn nearest_resized(
    width: u32,
    height: u32,
    pixels: Seq<u8>,
    new_width: u32,
    new_height: u32,
) -> Seq<u8>;

/// Relies on `image::ImageBuffer::from_vec` (accepts a buffer of width * height * 3
/// bytes), `image::imageops::resize` with `FilterType::Nearest` (an image of
/// exactly `new_width` x `new_height`, a function of its arguments) and
/// `ImageBuffer::into_raw` (its bytes, three per pixel, row-major).
#[verifier::external_body]
pub(crate) fn resize_nearest(
    width: u32,
    height: u32,
    pixels: &Vec<u8>,
    new_width: u32,
    new_height: u32,
) -> (r: Vec<u8>)
    requires
        width >= 1,
        height >= 1,
        pixels@.len() == width * height * 3,
        new_width >= 1,
        new_height >= 1,
    ensures
        r@ == nearest_resized(width, height, pixels@, new_width, new_height),
        r@.len() == new_width * new_height * 3,
{
    let img = image::ImageBuffer::<image::Rgb<u8>, Vec<u8>>::from_vec(width, height, pixels.clone())
        .unwrap();
    image::imageops::resize(&img, new_width, new_height, image::imageops::FilterType::Nearest)
        .into_raw()
}

} // verus!
