use vstd::prelude::*;
use crate::raster::{GrayImage, PixelColor, RgbaImage};

verus! {

/// The padded standard-alphabet Base64 text of `bytes`.
pub uninterp spec fn base64_of(bytes: Seq<u8>) -> Seq<char>;

/// The PNG file that the image codec writes for an RGBA raster.
pub uninterp spec fn png_rgba_of(width: u32, height: u32, pixels: Seq<PixelColor>) -> Seq<u8>;

/// The PNG file that the image codec writes for a luminance raster.
pub uninterp spec fn png_luma_of(width: u32, height: u32, pixels: Seq<u8>) -> Seq<u8>;

/// The image codec's error type, carried from the PNG encoder to an error message.
#[verifier::external_type_specification]
#[verifier::external_body]
pub struct ExImageError(image::ImageError);

/// Relies on `base64::Engine::encode` of the `STANDARD` engine, which depends on
/// the bytes alone.
#[verifier::external_body]
pub(crate) fn base64_encode(bytes: &Vec<u8>) -> (r: String)
    requires
        bytes@.len() < usize::MAX / 4,
    ensures
        r@ == base64_of(bytes@),
{
    base64::Engine::encode(&base64::engine::general_purpose::STANDARD, bytes)
}

/// Relies on `image::ImageBuffer::write_to` with `ImageFormat::Png` on an RGBA8
/// buffer built from the samples; the file depends on the samples alone, and the
/// PNG encoder refuses only a zero width or height.
#[verifier::external_body]
pub(crate) fn encode_png_rgba(img: &RgbaImage) -> (r: Result<Vec<u8>, image::ImageError>)
    requires
        img.wf(),
    ensures
        r is Ok ==> r->Ok_0@ == png_rgba_of(img.width, img.height, img.pixels@),
        img.width > 0 && img.height > 0 ==> r is Ok,
{
    let raw: Vec<u8> = img.pixels.iter().flat_map(|p| [p.r, p.g, p.b, p.a]).collect();
    let buf = image::RgbaImage::from_raw(img.width, img.height, raw).unwrap();
    let mut out: Vec<u8> = Vec::new();
    let res = buf.write_to(&mut std::io::Cursor::new(&mut out), image::ImageFormat::Png);
    res.map(|_| out)
}

/// Relies on `image::ImageBuffer::write_to` with `ImageFormat::Png` on a Luma8
/// buffer built from the samples; the file depends on the samples alone, and the
/// PNG encoder refuses only a zero width or height.
#[verifier::external_body]
pub(crate) fn encode_png_luma(img: &GrayImage) -> (r: Result<Vec<u8>, image::ImageError>)
    requires
        img.wf(),
    ensures
        r is Ok ==> r->Ok_0@ == png_luma_of(img.width, img.height, img.pixels@),
        img.width > 0 && img.height > 0 ==> r is Ok,
{
    let buf = image::GrayImage::from_raw(img.width, img.height, img.pixels.clone()).unwrap();
    let mut out: Vec<u8> = Vec::new();
    let res = buf.write_to(&mut std::io::Cursor::new(&mut out), image::ImageFormat::Png);
    res.map(|_| out)
}

/// Relies on the `Display` impl of `image::ImageError`, for error messages.
#[verifier::external_body]
pub(crate) fn describe_image_error(e: &image::ImageError) -> (r: String) {
    e.to_string()
}

} // verus!
