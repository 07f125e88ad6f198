use std::io::Cursor;

use coverthumb::errors::CoverError;
use coverthumb::pipeline::{fit_width, output_file_name, prepare_cover};
use coverthumb::imaging::ImageKind;
use image::{DynamicImage, ImageFormat, RgbImage};

fn expect_err(r: Result<coverthumb::pipeline::PreparedCover, CoverError>) -> CoverError {
    match r {
        Err(e) => e,
        Ok(_) => panic!("expected the pipeline to fail"),
    }
}

fn encoded_bytes(width: u32, height: u32, format: ImageFormat) -> Vec<u8> {
    let img = DynamicImage::ImageRgb8(RgbImage::new(width, height));
    let mut buf = Cursor::new(Vec::new());
    img.write_to(&mut buf, format).unwrap();
    buf.into_inner()
}

#[test]
fn png_cover_keeps_png_extension() {
    let bytes = encoded_bytes(8, 4, ImageFormat::Png);
    let p = prepare_cover(&bytes, 4).unwrap();
    assert_eq!(p.kind, ImageKind::Png);
    assert_eq!(p.file_name, "cover.png");
    assert_eq!((p.source_width, p.source_height), (8, 4));
    assert_eq!((p.width, p.height), (4, 2));
}

#[test]
fn jpeg_cover_keeps_jpg_extension() {
    let bytes = encoded_bytes(10, 5, ImageFormat::Jpeg);
    let p = prepare_cover(&bytes, 5).unwrap();
    assert_eq!(p.kind, ImageKind::Jpeg);
    assert_eq!(p.file_name, "cover.jpg");
    assert_eq!((p.source_width, p.source_height), (10, 5));
    assert_eq!((p.width, p.height), (5, 3));
}

#[test]
fn resize_matches_dimension_model() {
    // The verified integer model and the resizer agree on these inputs.
    let bytes = encoded_bytes(7, 3, ImageFormat::Png);
    let p = prepare_cover(&bytes, 5).unwrap();
    assert_eq!(fit_width(7, 3, 5), Some((p.width, p.height)));
    assert_eq!((p.width, p.height), (5, 2));
    // Aspect ratio within one pixel: |height * w - h * target| <= w.
    let diff = i64::from(p.height) * 7 - 3 * 5;
    assert!(diff.abs() <= 7);
}

#[test]
fn resize_width_equals_target() {
    let bytes = encoded_bytes(64, 48, ImageFormat::Png);
    let p = prepare_cover(&bytes, 16).unwrap();
    assert_eq!(p.width, 16);
    assert_eq!(p.height, 12);
}

#[test]
fn fit_width_exact_values() {
    assert_eq!(fit_width(100, 50, 10), Some((10, 5)));
    assert_eq!(fit_width(3, 1000, 1), Some((1, 333)));
    // Rounds half upward: 1 * 3 / 2 = 1.5 pixels.
    assert_eq!(fit_width(2, 1, 3), Some((3, 2)));
    // Never below one pixel.
    assert_eq!(fit_width(1000, 1, 10), Some((10, 1)));
}

#[test]
fn fit_width_overflows_to_none() {
    assert_eq!(fit_width(1, u32::MAX, u32::MAX), None);
}

#[test]
fn unknown_format_for_unrecognizable_bytes() {
    let bytes = b"this is certainly not an image".to_vec();
    assert_eq!(expect_err(prepare_cover(&bytes, 64)), CoverError::UnknownFormat);
}

#[test]
fn unknown_format_for_empty_bytes() {
    let bytes: Vec<u8> = Vec::new();
    assert_eq!(expect_err(prepare_cover(&bytes, 64)), CoverError::UnknownFormat);
}

#[test]
fn truncated_png_fails_to_decode() {
    let mut bytes = encoded_bytes(8, 8, ImageFormat::Png);
    bytes.truncate(20);
    assert_eq!(expect_err(prepare_cover(&bytes, 64)), CoverError::DecodeFailed);
}

#[test]
fn decodable_bitmap_is_still_unsupported() {
    // A valid, decodable BMP must be rejected by the allow-list, not
    // silently converted.
    let bytes = encoded_bytes(6, 6, ImageFormat::Bmp);
    assert_eq!(expect_err(prepare_cover(&bytes, 3)), CoverError::UnsupportedFormat);
}

#[test]
fn identical_inputs_give_identical_output() {
    let bytes = encoded_bytes(9, 4, ImageFormat::Png);
    let first = prepare_cover(&bytes, 6).unwrap();
    let second = prepare_cover(&bytes, 6).unwrap();
    assert_eq!(first.kind, second.kind);
    assert_eq!(first.file_name, second.file_name);
    assert_eq!((first.width, first.height), (second.width, second.height));
    assert_eq!(first.image.as_bytes(), second.image.as_bytes());
}

#[test]
fn output_file_names() {
    assert_eq!(output_file_name(ImageKind::Jpeg), "cover.jpg");
    assert_eq!(output_file_name(ImageKind::Png), "cover.png");
}

#[test]
fn error_messages() {
    assert_eq!(CoverError::CoverAbsent.message(), "cover is not found");
    assert_eq!(CoverError::UnknownFormat.message(), "unknown format");
    assert_eq!(CoverError::UnsupportedFormat.message(), "unsupported format");
    assert_eq!(CoverError::DecodeFailed.message(), "cannot decode cover image");
}
