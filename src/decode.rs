use vstd::prelude::*;

verus! {

/// What decoding an encoded image gives: its width, its height, and its pixels
/// as row-major RGB bytes; `None` where the bytes are no image that can be read.
pub uninterp spec fn rgb8_decoding(bytes: Seq<u8>) -> Option<(u32, u32, Seq<u8>)>;

/// Relies on `image::load_from_memory`, which guesses the format and decodes
/// the bytes, and on `DynamicImage::into_rgb8`, which converts the pixels to
/// 8-bit RGB. The result depends on the bytes alone, and an image buffer holds
/// at least three bytes for each of its `width * height` pixels.
#[verifier::external_body]
pub(crate) fn decode_rgb8(bytes: &[u8]) -> (r: Option<(u32, u32, Vec<u8>)>)
    ensures
        match r {
            Some((w, h, px)) => rgb8_decoding(bytes@) == Some((w, h, px@)) && px@.len() >= 3 * w * h,
            None => rgb8_decoding(bytes@) is None,
        },
{
    match image::load_from_memory(bytes) {
        Ok(img) => {
            let rgb = img.into_rgb8();
            let (w, h) = rgb.dimensions();
            Some((w, h, rgb.into_raw()))
        },
        Err(_) => None,
    }
}

} // verus!
