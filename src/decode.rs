use vstd::prelude::*;

use crate::error::{MlError, MlResult};
use crate::types::{DecodedImage, Dimensions};

verus! {

/// Failure reported by the image codecs.
#[verifier::external_type_specification]
#[verifier::external_body]
pub struct ExImageError(image::ImageError);

/// The Orientation tag of the primary image file directory, as an unsigned
/// integer, or `None` where the bytes hold no readable EXIF data or no such tag.
pub uninterp spec fn exif_orientation_tag(bytes: Seq<u8>) -> Option<u32>;

/// Relies on kamadak-exif's `Reader::read_from_container` and `Exif::get_field`:
/// the tag's first value, read from the bytes alone.
#[verifier::external_body]
fn exif_orientation_field(bytes: &[u8]) -> (r: Option<u32>)
    ensures
        r == exif_orientation_tag(bytes@),
{
    let mut cursor = std::io::Cursor::new(bytes);
    match exif::Reader::new().read_from_container(&mut cursor) {
        Ok(data) => match data.get_field(exif::Tag::Orientation, exif::In::PRIMARY) {
            Some(field) => field.value.get_uint(0),
            None => None,
        },
        Err(_) => None,
    }
}

/// Relies on image::load_from_memory and `DynamicImage::to_rgb8`: on success the
/// raster holds three bytes per pixel. Which formats decode depends on the
/// decoders registered in the process, so nothing more is stated.
#[verifier::external_body]
fn decode_rgb8(bytes: &[u8]) -> (r: Result<DecodedImage, image::ImageError>)
    ensures
        r matches Ok(img) ==> img.wf(),
{
    let rgb = image::load_from_memory(bytes)?.to_rgb8();
    Ok(DecodedImage {
        dimensions: Dimensions { width: rgb.width(), height: rgb.height() },
        rgb: rgb.into_raw(),
    })
}

/// Relies on image::imageops::flip_horizontal: column `x` of the result is column
/// `w - 1 - x` of the source.
#[verifier::external_body]
fn flip_horizontal(img: &DecodedImage) -> (r: DecodedImage)
    requires
        img.wf(),
    ensures
        r.wf(),
        r.dimensions == img.dimensions,
        forall|x: int, y: int, c: int|
            0 <= x < r.width() && 0 <= y < r.height() && 0 <= c < 3 ==> #[trigger] r.channel(
                x,
                y,
                c,
            ) == img.channel(img.width() - 1 - x, y, c),
{
    let src = image::RgbImage::from_raw(img.dimensions.width, img.dimensions.height, img.rgb.clone())
        .expect("buffer holds three bytes per pixel");
    let out = image::imageops::flip_horizontal(&src);
    DecodedImage {
        dimensions: Dimensions { width: out.width(), height: out.height() },
        rgb: out.into_raw(),
    }
}

/// Relies on image::imageops::flip_vertical: row `y` of the result is row
/// `h - 1 - y` of the source.
#[verifier::external_body]
fn flip_vertical(img: &DecodedImage) -> (r: DecodedImage)
    requires
        img.wf(),
    ensures
        r.wf(),
        r.dimensions == img.dimensions,
        forall|x: int, y: int, c: int|
            0 <= x < r.width() && 0 <= y < r.height() && 0 <= c < 3 ==> #[trigger] r.channel(
                x,
                y,
                c,
            ) == img.channel(x, img.height() - 1 - y, c),
{
    let src = image::RgbImage::from_raw(img.dimensions.width, img.dimensions.height, img.rgb.clone())
        .expect("buffer holds three bytes per pixel");
    let out = image::imageops::flip_vertical(&src);
    DecodedImage {
        dimensions: Dimensions { width: out.width(), height: out.height() },
        rgb: out.into_raw(),
    }
}

/// Relies on image::imageops::rotate90 (clockwise): source pixel `(x, y)` lands
/// at `(h - 1 - y, x)`, and width and height swap.
#[verifier::external_body]
fn rotate90(img: &DecodedImage) -> (r: DecodedImage)
    requires
        img.wf(),
    ensures
        r.wf(),
        r.dimensions.width == img.dimensions.height,
        r.dimensions.height == img.dimensions.width,
        forall|x: int, y: int, c: int|
            0 <= x < r.width() && 0 <= y < r.height() && 0 <= c < 3 ==> #[trigger] r.channel(
                x,
                y,
                c,
            ) == img.channel(y, img.height() - 1 - x, c),
{
    let src = image::RgbImage::from_raw(img.dimensions.width, img.dimensions.height, img.rgb.clone())
        .expect("buffer holds three bytes per pixel");
    let out = image::imageops::rotate90(&src);
    DecodedImage {
        dimensions: Dimensions { width: out.width(), height: out.height() },
        rgb: out.into_raw(),
    }
}

/// Relies on image::imageops::rotate180: source pixel `(x, y)` lands at
/// `(w - 1 - x, h - 1 - y)`.
#[verifier::external_body]
fn rotate180(img: &DecodedImage) -> (r: DecodedImage)
    requires
        img.wf(),
    ensures
        r.wf(),
        r.dimensions == img.dimensions,
        forall|x: int, y: int, c: int|
            0 <= x < r.width() && 0 <= y < r.height() && 0 <= c < 3 ==> #[trigger] r.channel(
                x,
                y,
                c,
            ) == img.channel(img.width() - 1 - x, img.height() - 1 - y, c),
{
    let src = image::RgbImage::from_raw(img.dimensions.width, img.dimensions.height, img.rgb.clone())
        .expect("buffer holds three bytes per pixel");
    let out = image::imageops::rotate180(&src);
    DecodedImage {
        dimensions: Dimensions { width: out.width(), height: out.height() },
        rgb: out.into_raw(),
    }
}

/// Relies on image::imageops::rotate270 (clockwise): source pixel `(x, y)` lands
/// at `(y, w - 1 - x)`, and width and height swap.
#[verifier::external_body]
fn rotate270(img: &DecodedImage) -> (r: DecodedImage)
    requires
        img.wf(),
    ensures
        r.wf(),
        r.dimensions.width == img.dimensions.height,
        r.dimensions.height == img.dimensions.width,
        forall|x: int, y: int, c: int|
            0 <= x < r.width() && 0 <= y < r.height() && 0 <= c < 3 ==> #[trigger] r.channel(
                x,
                y,
                c,
            ) == img.channel(img.width() - 1 - y, x, c),
{
    let src = image::RgbImage::from_raw(img.dimensions.width, img.dimensions.height, img.rgb.clone())
        .expect("buffer holds three bytes per pixel");
    let out = image::imageops::rotate270(&src);
    DecodedImage {
        dimensions: Dimensions { width: out.width(), height: out.height() },
        rgb: out.into_raw(),
    }
}

/// A transform that a HEIF container attaches to its primary item.
#[derive(Clone, Copy, Debug, PartialEq, Eq)]
pub enum PrimaryItemTransform {
    /// Counter-clockwise rotation, in degrees.
    Rotation(u32),
    /// Mirroring about an axis.
    Mirror,
    /// Any other transform property (cropping and the like).
    Other,
}

/// Whether a primary-item transform turns or mirrors the picture.
pub open spec fn transform_reorients(t: PrimaryItemTransform) -> bool {
    match t {
        PrimaryItemTransform::Rotation(deg) => deg % 360 != 0,
        PrimaryItemTransform::Mirror => true,
        PrimaryItemTransform::Other => false,
    }
}

/// Whether the container transforms already orient the decoded picture.
pub open spec fn transforms_reorient(ts: Seq<PrimaryItemTransform>) -> bool {
    exists|i: int| 0 <= i < ts.len() && #[trigger] transform_reorients(ts[i])
}

/// The EXIF orientation to honour: the tag's value when it is one of 1 to 8,
/// else 1 (no change).
pub open spec fn effective_orientation(tag: Option<u32>) -> u32 {
    match tag {
        Some(v) => if 1 <= v <= 8 { v } else { 1 },
        None => 1,
    }
}

/// Orientations 5 to 8 exchange width and height.
pub open spec fn swaps_axes(o: u32) -> bool {
    5 <= o <= 8
}

/// Column of the source pixel shown at `(x, y)` after orientation `o` is applied
/// to a `w` by `h` source.
pub open spec fn source_x(o: u32, w: int, h: int, x: int, y: int) -> int {
    if o == 2 || o == 3 {
        w - 1 - x
    } else if o == 5 || o == 6 {
        y
    } else if o == 7 || o == 8 {
        w - 1 - y
    } else {
        x
    }
}

/// Row of the source pixel shown at `(x, y)` after orientation `o` is applied to
/// a `w` by `h` source.
pub open spec fn source_y(o: u32, w: int, h: int, x: int, y: int) -> int {
    if o == 3 || o == 4 {
        h - 1 - y
    } else if o == 5 || o == 8 {
        x
    } else if o == 6 || o == 7 {
        h - 1 - x
    } else {
        y
    }
}

/// `out` is `src` with EXIF orientation `o` applied: 1 identity, 2 horizontal
/// flip, 3 half turn, 4 vertical flip, 5 horizontal flip then 270 degrees, 6 90
/// degrees, 7 horizontal flip then 90 degrees, 8 270 degrees (all clockwise);
/// other codes change nothing.
pub open spec fn is_oriented(out: DecodedImage, src: DecodedImage, o: u32) -> bool {
    &&& out.wf()
    &&& if swaps_axes(o) {
        out.dimensions.width == src.dimensions.height && out.dimensions.height
            == src.dimensions.width
    } else {
        out.dimensions == src.dimensions
    }
    &&& forall|x: int, y: int, c: int|
        0 <= x < out.width() && 0 <= y < out.height() && 0 <= c < 3 ==> #[trigger] out.channel(
            x,
            y,
            c,
        ) == src.channel(
            source_x(o, src.width(), src.height(), x, y),
            source_y(o, src.width(), src.height(), x, y),
            c,
        )
}

/// The EXIF orientation of an encoded image, 1 when absent or out of range.
pub fn read_exif_orientation(image_data: &[u8]) -> (r: u32)
    ensures
        r == effective_orientation(exif_orientation_tag(image_data@)),
        1 <= r <= 8,
{
    match exif_orientation_field(image_data) {
        Some(v) => if 1 <= v && v <= 8 {
            v
        } else {
            1
        },
        None => 1,
    }
}

/// Whether a HEIF container's primary-item transforms already rotate or mirror
/// the picture.
pub fn heif_primary_transforms_include_orientation(transforms: &[PrimaryItemTransform]) -> (r:
    bool)
    ensures
        r == transforms_reorient(transforms@),
{
    let mut i: usize = 0;
    while i < transforms.len()
        invariant
            0 <= i <= transforms@.len(),
            forall|j: int| 0 <= j < i ==> !transform_reorients(#[trigger] transforms@[j]),
        decreases transforms@.len() - i,
    {
        let reorients = match transforms[i] {
            PrimaryItemTransform::Rotation(deg) => deg % 360 != 0,
            PrimaryItemTransform::Mirror => true,
            PrimaryItemTransform::Other => false,
        };
        if reorients {
            assert(transform_reorients(transforms@[i as int]));
            return true;
        }
        i = i + 1;
    }
    false
}

/// EXIF orientation is applied unless it is the identity or the container's own
/// transforms already oriented the picture (which would rotate it twice).
pub fn should_apply_exif_orientation(
    exif_orientation: u32,
    transforms: &[PrimaryItemTransform],
) -> (r: bool)
    ensures
        r == (exif_orientation != 1 && !transforms_reorient(transforms@)),
{
    if exif_orientation == 1 {
        return false;
    }
    !heif_primary_transforms_include_orientation(transforms)
}

/// Applies EXIF orientation `orientation` to a raster.
pub fn apply_exif_orientation(image: DecodedImage, orientation: u32) -> (r: DecodedImage)
    requires
        image.wf(),
    ensures
        is_oriented(r, image, orientation),
{
    match orientation {
        2 => flip_horizontal(&image),
        3 => rotate180(&image),
        4 => flip_vertical(&image),
        5 => {
            let flipped = flip_horizontal(&image);
            let r = rotate270(&flipped);
            assert forall|x: int, y: int, c: int|
                0 <= x < r.width() && 0 <= y < r.height() && 0 <= c < 3 implies #[trigger] r.channel(
                x,
                y,
                c,
            ) == image.channel(y, x, c) by {
                assert(r.channel(x, y, c) == flipped.channel(flipped.width() - 1 - y, x, c));
            }
            r
        },
        6 => rotate90(&image),
        7 => {
            let flipped = flip_horizontal(&image);
            let r = rotate90(&flipped);
            assert forall|x: int, y: int, c: int|
                0 <= x < r.width() && 0 <= y < r.height() && 0 <= c < 3 implies #[trigger] r.channel(
                x,
                y,
                c,
            ) == image.channel(image.width() - 1 - y, image.height() - 1 - x, c) by {
                assert(r.channel(x, y, c) == flipped.channel(y, flipped.height() - 1 - x, c));
            }
            r
        },
        8 => rotate270(&image),
        _ => image,
    }
}

/// Orients a freshly decoded raster: EXIF orientation `exif_orientation` is
/// applied exactly when `should_apply_exif_orientation` says so.
pub fn orient_decoded_image(
    decoded: DecodedImage,
    exif_orientation: u32,
    transforms: &[PrimaryItemTransform],
) -> (r: DecodedImage)
    requires
        decoded.wf(),
    ensures
        r.wf(),
        exif_orientation != 1 && !transforms_reorient(transforms@) ==> is_oriented(
            r,
            decoded,
            exif_orientation,
        ),
        !(exif_orientation != 1 && !transforms_reorient(transforms@)) ==> r == decoded,
{
    if should_apply_exif_orientation(exif_orientation, transforms) {
        apply_exif_orientation(decoded, exif_orientation)
    } else {
        decoded
    }
}

/// Decodes an encoded image held in memory into an oriented RGB raster with
/// positive width and height; an empty picture is a decode error.
/// `transforms` are the primary-item transforms of a HEIF container (empty for
/// other formats, or when the container could not be parsed).
pub fn decode_image_from_bytes(
    file_bytes: &[u8],
    transforms: &[PrimaryItemTransform],
) -> (r: MlResult<DecodedImage>)
    ensures
        r matches Ok(img) ==> img.wf() && img.dimensions.width > 0 && img.dimensions.height > 0,
        r matches Ok(img) ==> exists|d: DecodedImage|
            #![auto]
            d.wf() && {
                let o = effective_orientation(exif_orientation_tag(file_bytes@));
                if o != 1 && !transforms_reorient(transforms@) {
                    is_oriented(img, d, o)
                } else {
                    img == d
                }
            },
        r matches Err(e) ==> e is Decode,
{
    let exif_orientation = read_exif_orientation(file_bytes);
    match decode_rgb8(file_bytes) {
        Ok(decoded) => {
            if decoded.dimensions.width == 0 || decoded.dimensions.height == 0 {
                return Err(
                    MlError::Decode(String::from_str("decoded image has zero width or height")),
                );
            }
            Ok(orient_decoded_image(decoded, exif_orientation, transforms))
        },
        Err(e) => Err(MlError::Decode(e.to_string())),
    }
}

} // verus!
