use vstd::prelude::*;

use crate::detect::{detect_spec, lemma_detect_never_horizontal_resize};
use crate::shape::CommonCursorType;

verus! {

/// Relies on `image::guess_format` (the built-in table of magic bytes) and
/// `image::load_from_memory_with_format` (the built-in decoder of that
/// format), then `GenericImageView::dimensions`, `DynamicImage::to_rgba8` and
/// `ImageBuffer::into_raw`, for the width, height and RGBA8 pixel bytes of the
/// image, or none where the content is no image the crate decodes. Some
/// decoders (JPEG, and DWA blocks of OpenEXR) pick SIMD code at run time
/// whose output is not bit-identical across machines, so nothing is promised
/// of the pixels.
#[verifier::external_body]
fn decode_rgba8(bytes: &[u8]) -> (r: Option<(u32, u32, Vec<u8>)>) {
    let format = match image::guess_format(bytes) {
        Ok(format) => format,
        Err(_) => return None,
    };
    match image::load_from_memory_with_format(bytes, format) {
        Ok(img) => {
            let (w, h) = image::GenericImageView::dimensions(&img);
            Some((w, h, img.to_rgba8().into_raw()))
        },
        Err(_) => None,
    }
}

/// Decodes the content of an image file and classifies its pixels with
/// `detect_from_image`. Content that is not a recognizable image gives no
/// shape, as an image that matches no pattern does. A shape that comes back
/// is the classification of some image, and never the horizontal resize.
pub fn analyze_cursor_bytes(bytes: &[u8]) -> (r: Option<CommonCursorType>)
    ensures
        r is Some ==> exists|px: Seq<u8>, w: u32, h: u32|
            r == #[trigger] detect_spec(px, w as int, h as int),
        r != Some(CommonCursorType::ResizeEW),
{
    match decode_rgba8(bytes) {
        None => None,
        Some((w, h, px)) => {
            let r = CommonCursorType::detect_from_image(px.as_slice(), w, h);
            proof {
                lemma_detect_never_horizontal_resize(px@, w, h);
                assert(r == detect_spec(px@, w as int, h as int));
            }
            r
        },
    }
}

} // verus!
