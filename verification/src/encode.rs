use vstd::prelude::*;

use image::codecs::png::PngEncoder;
use image::{ExtendedColorType, ImageEncoder, ImageError};

use crate::compose::PixelCapture;
use crate::error::Error;

verus! {

#[verifier::external_type_specification]
#[verifier::external_body]
pub struct ExImageError(ImageError);

/// The PNG file that the `image` crate's PNG encoder, with its default
/// compression and filter, writes for `width` by `height` RGBA pixels with
/// 8 bits per channel; `None` where it reports an error.
pub uninterp spec fn png_rgba8(rgba: Seq<u8>, width: u32, height: u32) -> Option<Seq<u8>>;

/// The eight bytes that every PNG file starts with.
pub open spec fn png_signature() -> Seq<u8> {
    seq![137u8, 80u8, 78u8, 71u8, 13u8, 10u8, 26u8, 10u8]
}

/// Encodes RGBA pixels as a PNG file with `image::codecs::png::PngEncoder`
/// and `ImageEncoder::write_image` (8-bit RGBA).
///
/// Trusted: the result is the named encoding of the arguments; the encoder
/// refuses an image without pixels and encodes every image with pixels (the
/// output goes to a `Vec`, whose writes do not fail); the file it writes
/// starts with the PNG signature. The encoder panics on a buffer whose length is not four bytes
/// per pixel, which `requires` rules out.
#[verifier::external_body]
fn write_png_rgba8(rgba: &[u8], width: u32, height: u32) -> (result: Result<Vec<u8>, ImageError>)
    requires
        rgba@.len() == width as int * height as int * 4,
    ensures
        match result {
            Ok(png) => png_rgba8(rgba@, width, height) == Some(png@),
            Err(_) => png_rgba8(rgba@, width, height) is None,
        },
        width == 0 || height == 0 ==> result is Err,
        width > 0 && height > 0 ==> result is Ok,
        result matches Ok(png) ==> png@.len() >= 8 && png@.subrange(0, 8) == png_signature(),
{
    let mut png = Vec::new();
    match PngEncoder::new(&mut png).write_image(rgba, width, height, ExtendedColorType::Rgba8) {
        Ok(()) => Ok(png),
        Err(error) => Err(error),
    }
}

/// A PNG-encoded image and its size in pixels.
pub struct PngImage {
    pub png: Vec<u8>,
    pub width: u32,
    pub height: u32,
}

/// Encodes captured pixels as a PNG image of the same size.
pub fn encode_png(capture: PixelCapture) -> (result: Result<PngImage, Error>)
    requires
        capture.rgba@.len() == capture.width as int * capture.height as int * 4,
    ensures
        result is Ok <==> capture.width > 0 && capture.height > 0,
        result is Ok <==> png_rgba8(capture.rgba@, capture.width, capture.height) is Some,
        result is Err ==> result == Err::<PngImage, Error>(Error::OperationFailed),
        result matches Ok(image) ==> {
            &&& image.width == capture.width
            &&& image.height == capture.height
            &&& png_rgba8(capture.rgba@, capture.width, capture.height) == Some(image.png@)
            &&& image.png@.len() >= 8
            &&& image.png@.subrange(0, 8) == png_signature()
        },
{
    let PixelCapture { rgba, width, height } = capture;
    match write_png_rgba8(rgba.as_slice(), width, height) {
        Ok(png) => Ok(PngImage { png, width, height }),
        Err(_) => Err(Error::OperationFailed),
    }
}

} // verus!
