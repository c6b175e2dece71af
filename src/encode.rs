use vstd::prelude::*;

use image::ImageEncoder;

use crate::error::{MlError, MlResult};
use crate::text::push_decimal;

verus! {

/// JPEG quality of face thumbnails.
pub const FACE_THUMBNAIL_JPEG_QUALITY: u8 = 90;

/// Length of the short side of a face thumbnail.
pub const FACE_THUMBNAIL_MIN_DIMENSION: u32 = 512;

/// Container format for an encoded raster.
#[derive(Clone, Copy, Debug, PartialEq, Eq, Structural)]
pub enum EncodedImageFormat {
    Jpeg { quality: u8 },
    Png,
}

/// The JPEG stream that image's encoder writes for an RGB raster at a quality.
pub uninterp spec fn jpeg_encoding(rgb: Seq<u8>, width: u32, height: u32, quality: u8) -> Seq<u8>;

/// The PNG stream that image's encoder writes for an RGB raster.
pub uninterp spec fn png_encoding(rgb: Seq<u8>, width: u32, height: u32) -> Seq<u8>;

/// Relies on image's `JpegEncoder::new_with_quality` and `write_image` with 8-bit
/// RGB: the stream depends on the pixels, size and quality alone, and the only
/// refusal is a side outside 1 to 65535. The encoder asserts that the buffer
/// holds three bytes per pixel, hence the requirement.
#[verifier::external_body]
fn jpeg_encode(rgb: &[u8], width: u32, height: u32, quality: u8) -> (r: Result<
    Vec<u8>,
    image::ImageError,
>)
    requires
        rgb@.len() == width as int * height as int * 3,
    ensures
        r matches Ok(v) ==> v@ == jpeg_encoding(rgb@, width, height, quality),
        1 <= width <= 65535 && 1 <= height <= 65535 ==> r is Ok,
{
    let mut encoded = Vec::new();
    image::codecs::jpeg::JpegEncoder::new_with_quality(&mut encoded, quality).write_image(
        rgb,
        width,
        height,
        image::ExtendedColorType::Rgb8,
    )?;
    Ok(encoded)
}

/// Relies on image's `PngEncoder::new` and `write_image` with 8-bit RGB: the
/// stream depends on the pixels and size alone, and the only refusal is a zero
/// side. The encoder asserts that the buffer holds three bytes per pixel, hence
/// the requirement.
#[verifier::external_body]
fn png_encode(rgb: &[u8], width: u32, height: u32) -> (r: Result<Vec<u8>, image::ImageError>)
    requires
        rgb@.len() == width as int * height as int * 3,
    ensures
        r matches Ok(v) ==> v@ == png_encoding(rgb@, width, height),
        width > 0 && height > 0 ==> r is Ok,
{
    let mut encoded = Vec::new();
    image::codecs::png::PngEncoder::new(&mut encoded).write_image(
        rgb,
        width,
        height,
        image::ExtendedColorType::Rgb8,
    )?;
    Ok(encoded)
}

/// Encodes an 8-bit RGB raster, row-major, as JPEG or PNG.
///
/// Fails with a postprocess error when a side is zero, when the buffer does not
/// hold exactly three bytes per pixel, or when a JPEG side exceeds 65535.
pub fn encode_rgb(rgb_bytes: &[u8], width: u32, height: u32, format: EncodedImageFormat) -> (r:
    MlResult<Vec<u8>>)
    ensures
        (width == 0 || height == 0 || rgb_bytes@.len() != width as int * height as int * 3)
            ==> r is Err,
        r matches Err(e) ==> e is Postprocess,
        width > 0 && height > 0 && rgb_bytes@.len() == width as int * height as int * 3 && (
        format is Png || (width <= 65535 && height <= 65535)) ==> r is Ok,
        r matches Ok(v) ==> width > 0 && height > 0 && rgb_bytes@.len() == width as int
            * height as int * 3 && v@ == match format {
            EncodedImageFormat::Jpeg { quality } => jpeg_encoding(
                rgb_bytes@,
                width,
                height,
                quality,
            ),
            EncodedImageFormat::Png => png_encoding(rgb_bytes@, width, height),
        },
{
    if width == 0 || height == 0 {
        return Err(MlError::Postprocess(String::from_str("cannot encode image with zero width or height")));
    }
    assert(width as int * height as int <= 0xffff_ffff * 0xffff_ffff) by (nonlinear_arith)
        requires
            width <= 0xffff_ffff,
            height <= 0xffff_ffff,
    ;
    let expected_len: u128 = width as u128 * height as u128 * 3;
    if rgb_bytes.len() as u128 != expected_len {
        let mut text = String::from_str("invalid RGB buffer length ");
        push_decimal(&mut text, rgb_bytes.len() as u64);
        text.append(" for ");
        push_decimal(&mut text, width as u64);
        text.append("x");
        push_decimal(&mut text, height as u64);
        return Err(MlError::Postprocess(text));
    }
    let encoded = match format {
        EncodedImageFormat::Jpeg { quality } => jpeg_encode(rgb_bytes, width, height, quality),
        EncodedImageFormat::Png => png_encode(rgb_bytes, width, height),
    };
    match encoded {
        Ok(v) => Ok(v),
        Err(e) => {
            let mut text = String::from_str(match format {
                EncodedImageFormat::Jpeg { .. } => "failed to encode JPEG: ",
                EncodedImageFormat::Png => "failed to encode PNG: ",
            });
            text.append(e.to_string().as_str());
            Err(MlError::Postprocess(text))
        },
    }
}

} // verus!
