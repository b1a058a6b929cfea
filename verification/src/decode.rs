//! The image decoder, at its interface boundary.
//!
//! Decoding is delegated to the `image` crate: a wallpaper file is read from
//! disk and must decode to an 8-bit three-channel (RGB) image.  What comes
//! back depends on what is on disk at that moment, so the engine treats every
//! call as a fresh attempt and states only what holds of any successful
//! outcome: the pixel buffer is exactly three bytes per pixel.

use vstd::prelude::*;

verus! {

/// A decoded wallpaper: dimensions as the file declared them, and its pixels
/// as rows of 3-byte RGB values, top to bottom.
pub struct DecodedImage {
    pub width: u32,
    pub height: u32,
    pub pixels: Vec<u8>,
}

/// The mathematical value of a decoded wallpaper.
pub struct DecodedImageV {
    pub width: u32,
    pub height: u32,
    pub pixels: Seq<u8>,
}

impl View for DecodedImage {
    type V = DecodedImageV;

    open spec fn view(&self) -> DecodedImageV {
        DecodedImageV { width: self.width, height: self.height, pixels: self.pixels@ }
    }
}

/// A decoded image whose buffer holds exactly three bytes per pixel.
pub open spec fn decoded_wf(img: DecodedImageV) -> bool {
    img.pixels.len() == 3 * img.width * img.height
}

/// Relies on `image::ImageReader::open` and `decode`, and on
/// `DynamicImage::as_rgb8` / `ImageBuffer::as_raw`: decode the file at `path`
/// (a UTF-8 file path).  Decoding allocates the raw buffer at exactly
/// `width * height * 3` bytes for an RGB8 image.  The result depends on the
/// disk, so no two calls are related: any failure (path not UTF-8, file
/// missing or unreadable, malformed image, channel layout other than RGB8)
/// gives `None`.
#[verifier::external_body]
pub(crate) fn decode_file(path: &Vec<u8>) -> (r: Option<DecodedImage>)
    ensures
        r matches Some(img) ==> decoded_wf(img@),
{
    let p = String::from_utf8(path.clone()).ok()?;
    let img = image::ImageReader::open(&p).ok()?.decode().ok()?;
    let rgb = img.as_rgb8()?;
    Some(DecodedImage { width: rgb.width(), height: rgb.height(), pixels: rgb.as_raw().clone() })
}

} // verus!
