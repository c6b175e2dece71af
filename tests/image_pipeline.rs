use image::ImageFormat;
use photo_analysis::decode::{
    apply_exif_orientation, decode_image_from_bytes, heif_primary_transforms_include_orientation,
    read_exif_orientation, should_apply_exif_orientation, PrimaryItemTransform,
};
use photo_analysis::encode::{encode_rgb, EncodedImageFormat, FACE_THUMBNAIL_JPEG_QUALITY};
use photo_analysis::error::MlError;
use photo_analysis::thumbnail::{dimensions_with_min_side, scaled_long_side};
use photo_analysis::types::{DecodedImage, Dimensions};

/// A 2 by 3 raster whose pixel (x, y) has red x, green y, blue 7.
fn small_image() -> DecodedImage {
    let mut rgb = Vec::new();
    for y in 0..3u8 {
        for x in 0..2u8 {
            rgb.push(x);
            rgb.push(y);
            rgb.push(7);
        }
    }
    DecodedImage { dimensions: Dimensions { width: 2, height: 3 }, rgb }
}

fn pixel(img: &DecodedImage, x: u32, y: u32) -> (u8, u8) {
    let i = ((y * img.dimensions.width + x) * 3) as usize;
    (img.rgb[i], img.rgb[i + 1])
}

/// A JPEG stream with an EXIF block that holds only the Orientation tag.
fn with_exif_orientation(jpeg: &[u8], orientation: u8) -> Vec<u8> {
    let tiff: Vec<u8> = vec![
        b'M', b'M', 0, 42, 0, 0, 0, 8, // header, first directory at offset 8
        0, 1, // one entry
        0x01, 0x12, 0, 3, 0, 0, 0, 1, 0, orientation, 0, 0, // Orientation, SHORT, 1 value
        0, 0, 0, 0, // no next directory
    ];
    let mut payload = b"Exif\0\0".to_vec();
    payload.extend_from_slice(&tiff);
    let len = (payload.len() + 2) as u16;
    let mut out = vec![0xFF, 0xD8, 0xFF, 0xE1, (len >> 8) as u8, (len & 0xff) as u8];
    out.extend_from_slice(&payload);
    out.extend_from_slice(&jpeg[2..]);
    out
}

#[test]
fn encode_rgb_jpeg_produces_valid_jpeg() {
    let rgb = vec![255, 0, 0, 0, 255, 0, 0, 0, 255, 255, 255, 255];
    let encoded = encode_rgb(
        &rgb,
        2,
        2,
        EncodedImageFormat::Jpeg { quality: FACE_THUMBNAIL_JPEG_QUALITY },
    )
    .expect("jpeg encoding should succeed");

    assert!(!encoded.is_empty());
    image::load_from_memory_with_format(&encoded, ImageFormat::Jpeg)
        .expect("encoded bytes should be valid JPEG");
}

#[test]
fn encode_rgb_rejects_invalid_buffer_size() {
    let invalid_rgb = vec![0, 1, 2];
    let result = encode_rgb(
        &invalid_rgb,
        2,
        2,
        EncodedImageFormat::Jpeg { quality: FACE_THUMBNAIL_JPEG_QUALITY },
    );

    assert!(result.is_err());
}

#[test]
fn encode_rgb_rejects_zero_side_as_postprocess() {
    let result = encode_rgb(&[], 0, 4, EncodedImageFormat::Png);
    assert!(matches!(result, Err(MlError::Postprocess(_))));
}

#[test]
fn encode_rgb_png_round_trips_pixels() {
    let img = small_image();
    let png = encode_rgb(&img.rgb, 2, 3, EncodedImageFormat::Png).expect("png encoding");
    let back = image::load_from_memory_with_format(&png, ImageFormat::Png).expect("valid PNG");
    assert_eq!(back.to_rgb8().into_raw(), img.rgb);
}

#[test]
fn dimensions_with_min_side_keeps_aspect_ratio_and_sets_short_side_to_512() {
    let (w1, h1) = dimensions_with_min_side(100, 200).expect("resize should succeed");
    assert_eq!(w1, 512);
    assert_eq!(h1, 1024);

    let (w2, h2) = dimensions_with_min_side(300, 120).expect("resize should succeed");
    assert_eq!(w2, 1280);
    assert_eq!(h2, 512);
}

#[test]
fn dimensions_with_min_side_rejects_zero_sides() {
    assert!(matches!(dimensions_with_min_side(0, 10), Err(MlError::Postprocess(_))));
    assert!(matches!(dimensions_with_min_side(10, 0), Err(MlError::Postprocess(_))));
}

#[test]
fn dimensions_with_min_side_square_and_upscale() {
    assert_eq!(dimensions_with_min_side(90, 72).unwrap(), (640, 512));
    assert_eq!(dimensions_with_min_side(7, 7).unwrap(), (512, 512));
}

#[test]
fn scaled_long_side_rounds_half_to_even() {
    // 3 * 512 / 1024 = 1.5 -> 2; 5 * 512 / 1024 = 2.5 -> 2; 7 * 512 / 1024 = 3.5 -> 4
    assert_eq!(scaled_long_side(3, 1024).unwrap(), 2);
    assert_eq!(scaled_long_side(5, 1024).unwrap(), 2);
    assert_eq!(scaled_long_side(7, 1024).unwrap(), 4);
    // 1 * 512 / 1023 rounds to 1; 1 * 512 / 1025 rounds to 0, which is refused
    assert_eq!(scaled_long_side(1, 1023).unwrap(), 1);
    assert!(scaled_long_side(1, 1025).is_err());
    assert!(scaled_long_side(5, 0).is_err());
}

#[test]
fn scaled_long_side_refuses_overflow() {
    assert!(matches!(scaled_long_side(u32::MAX, 1), Err(MlError::Postprocess(_))));
}

#[test]
fn orientation_one_and_unknown_codes_change_nothing() {
    let img = small_image();
    for code in [0u32, 1, 9, 200] {
        let out = apply_exif_orientation(img.clone(), code);
        assert_eq!(out.dimensions, img.dimensions);
        assert_eq!(out.rgb, img.rgb);
    }
}

#[test]
fn orientation_flips_and_half_turn() {
    let img = small_image();
    let h = apply_exif_orientation(img.clone(), 2);
    assert_eq!(h.dimensions, Dimensions { width: 2, height: 3 });
    assert_eq!(pixel(&h, 0, 0), (1, 0));
    assert_eq!(pixel(&h, 1, 2), (0, 2));

    let r = apply_exif_orientation(img.clone(), 3);
    assert_eq!(pixel(&r, 0, 0), (1, 2));
    assert_eq!(pixel(&r, 1, 1), (0, 1));

    let v = apply_exif_orientation(img, 4);
    assert_eq!(pixel(&v, 0, 0), (0, 2));
    assert_eq!(pixel(&v, 1, 2), (1, 0));
}

#[test]
fn orientation_quarter_turns_swap_axes() {
    let img = small_image();
    for code in 5..=8u32 {
        let out = apply_exif_orientation(img.clone(), code);
        assert_eq!(out.dimensions, Dimensions { width: 3, height: 2 });
        assert_eq!(out.rgb.len(), 18);
    }
    // 5: transpose
    let t = apply_exif_orientation(img.clone(), 5);
    assert_eq!(pixel(&t, 2, 1), (1, 2));
    // 6: 90 degrees clockwise, output (x, y) shows source (y, h - 1 - x)
    let r90 = apply_exif_orientation(img.clone(), 6);
    assert_eq!(pixel(&r90, 0, 0), (0, 2));
    assert_eq!(pixel(&r90, 2, 1), (1, 0));
    // 7: output (x, y) shows source (w - 1 - y, h - 1 - x)
    let t7 = apply_exif_orientation(img.clone(), 7);
    assert_eq!(pixel(&t7, 0, 0), (1, 2));
    // 8: 270 degrees clockwise, output (x, y) shows source (w - 1 - y, x)
    let r270 = apply_exif_orientation(img, 8);
    assert_eq!(pixel(&r270, 0, 0), (1, 0));
    assert_eq!(pixel(&r270, 2, 1), (0, 2));
}

#[test]
fn heif_transforms_decide_whether_exif_applies() {
    assert!(!heif_primary_transforms_include_orientation(&[]));
    assert!(!heif_primary_transforms_include_orientation(&[
        PrimaryItemTransform::Rotation(0),
        PrimaryItemTransform::Rotation(360),
        PrimaryItemTransform::Other,
    ]));
    assert!(heif_primary_transforms_include_orientation(&[PrimaryItemTransform::Rotation(90)]));
    assert!(heif_primary_transforms_include_orientation(&[
        PrimaryItemTransform::Other,
        PrimaryItemTransform::Mirror,
    ]));

    assert!(!should_apply_exif_orientation(1, &[]));
    assert!(should_apply_exif_orientation(6, &[]));
    assert!(!should_apply_exif_orientation(6, &[PrimaryItemTransform::Rotation(270)]));
}

#[test]
fn exif_orientation_defaults_to_one() {
    assert_eq!(read_exif_orientation(&[]), 1);
    let img = small_image();
    let jpeg = encode_rgb(&img.rgb, 2, 3, EncodedImageFormat::Jpeg { quality: 90 }).unwrap();
    assert_eq!(read_exif_orientation(&jpeg), 1);
    assert_eq!(read_exif_orientation(&with_exif_orientation(&jpeg, 9)), 1);
}

#[test]
fn exif_orientation_is_read_from_jpeg() {
    let img = small_image();
    let jpeg = encode_rgb(&img.rgb, 2, 3, EncodedImageFormat::Jpeg { quality: 90 }).unwrap();
    assert_eq!(read_exif_orientation(&with_exif_orientation(&jpeg, 6)), 6);
    assert_eq!(read_exif_orientation(&with_exif_orientation(&jpeg, 3)), 3);
}

#[test]
fn decode_applies_exif_rotation() {
    let img = small_image();
    let jpeg = encode_rgb(&img.rgb, 2, 3, EncodedImageFormat::Jpeg { quality: 90 }).unwrap();
    let rotated = with_exif_orientation(&jpeg, 6);

    let decoded = decode_image_from_bytes(&rotated, &[]).expect("decodes");
    assert_eq!(decoded.dimensions, Dimensions { width: 3, height: 2 });
    assert_eq!(decoded.rgb.len(), 3 * 2 * 3);

    // container transforms already oriented the picture: EXIF is ignored
    let kept = decode_image_from_bytes(&rotated, &[PrimaryItemTransform::Mirror]).expect("decodes");
    assert_eq!(kept.dimensions, Dimensions { width: 2, height: 3 });
}

#[test]
fn decode_png_keeps_pixels_and_length_invariant() {
    let mut rgb = Vec::new();
    for y in 0..200u32 {
        for x in 0..100u32 {
            rgb.push((x % 256) as u8);
            rgb.push((y % 256) as u8);
            rgb.push(((x + y) % 256) as u8);
        }
    }
    let png = encode_rgb(&rgb, 100, 200, EncodedImageFormat::Png).unwrap();
    let decoded = decode_image_from_bytes(&png, &[]).expect("decodes");
    assert_eq!(decoded.dimensions, Dimensions { width: 100, height: 200 });
    assert_eq!(decoded.rgb.len(), 100 * 200 * 3);
    assert_eq!(decoded.rgb, rgb);
}

#[test]
fn decode_rejects_garbage_as_decode_error() {
    let result = decode_image_from_bytes(&[1, 2, 3, 4, 5], &[]);
    assert!(matches!(result, Err(MlError::Decode(_))));
}
