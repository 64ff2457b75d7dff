//! Decoding downloaded JPEG files into pictures.
use vstd::prelude::*;

use crate::job::accumulate::{raw_pixel, RgbPicture};

verus! {

/// What the `image` crate decodes a JPEG file into, converted to 8-bit RGB:
/// the width, the height and the raw bytes of the picture; `None` where the
/// bytes are not a JPEG file that it can decode. The crate is built with
/// `jpeg-decoder`'s `platform_independent` feature, which leaves out the
/// decoder's machine-specific colour conversion and inverse DCT, so the
/// pixels depend on the bytes alone.
pub uninterp spec fn jpeg_rgb(bytes: Seq<u8>) -> Option<(u32, u32, Seq<u8>)>;

/// Decodes a JPEG file with the `image` crate (`io::Reader::with_format` with
/// `ImageFormat::Jpeg`, then `decode`) and converts the result to 8-bit RGB
/// (`DynamicImage::into_rgb8`, `ImageBuffer::dimensions`, `into_raw`). The
/// result is named by `jpeg_rgb`; as the crate's `ImageBuffer` guarantees, the
/// raw buffer holds at least three bytes per pixel. The decoder reports bytes
/// that are not a well-formed JPEG file as an error; that it never panics on
/// any such input is not shown here, and no `requires` could name those inputs.
#[verifier::external_body]
fn decode_jpeg_rgb(bytes: &[u8]) -> (r: Option<(u32, u32, Vec<u8>)>)
    ensures
        match r {
            Some((w, h, raw)) => jpeg_rgb(bytes@) == Some((w, h, raw@)) && raw@.len() >= 3 * (w as int
                * h as int),
            None => jpeg_rgb(bytes@) is None,
        },
{
    let reader = image::io::Reader::with_format(std::io::Cursor::new(bytes), image::ImageFormat::Jpeg);
    match reader.decode() {
        Ok(img) => {
            let rgb = img.into_rgb8();
            let (w, h) = rgb.dimensions();
            Some((w, h, rgb.into_raw()))
        },
        Err(_) => None,
    }
}

/// The bytes could not be decoded as a JPEG picture.
#[derive(Debug, Clone, Copy, PartialEq, Eq, Structural)]
pub struct CannotDecode;

/// Whether `p` is the picture of the given size whose pixels are the first
/// `3 * width * height` bytes of `raw`.
pub open spec fn picture_from(p: RgbPicture, width: u32, height: u32, raw: Seq<u8>) -> bool {
    &&& p.spec_width() == width
    &&& p.spec_height() == height
    &&& p@.len() == width as int * height as int
    &&& forall|k: int| 0 <= k < p@.len() ==> #[trigger] p@[k] == raw_pixel(raw, k)
}

/// Decodes a JPEG file into a picture.
pub fn decode(bytes: &[u8]) -> (r: Result<RgbPicture, CannotDecode>)
    ensures
        r is Ok <==> jpeg_rgb(bytes@) is Some,
        r matches Ok(p) ==> (jpeg_rgb(bytes@) matches Some((w, h, raw)) && picture_from(p, w, h, raw)),
{
    match decode_jpeg_rgb(bytes) {
        Some((w, h, raw)) => match RgbPicture::from_raw(w, h, &raw) {
            Some(p) => Ok(p),
            None => Err(CannotDecode),
        },
        None => Err(CannotDecode),
    }
}

} // verus!
