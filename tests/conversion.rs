use std::io::Cursor;

use imgconv::{convert, sniff, ConversionError, ImageFormat};

fn sample_png() -> Vec<u8> {
    let img = image::RgbImage::from_fn(8, 6, |x, y| image::Rgb([(x * 30) as u8, (y * 40) as u8, 128]));
    let mut out = Cursor::new(Vec::new());
    image::DynamicImage::ImageRgb8(img)
        .write_to(&mut out, image::ImageOutputFormat::Png)
        .expect("encode sample");
    out.into_inner()
}

#[test]
fn png_to_jpeg() {
    let out = convert(sample_png(), ImageFormat::Jpeg).expect("conversion succeeds");
    assert!(!out.is_empty());
    assert_eq!(&out[..3], &[0xFF, 0xD8, 0xFF]);
    assert_eq!(sniff(&out), ImageFormat::Jpeg);
}

#[test]
fn png_to_bmp_and_back() {
    let bmp = convert(sample_png(), ImageFormat::Bmp).expect("to bmp");
    assert_eq!(&bmp[..2], b"BM");
    let png = convert(bmp, ImageFormat::Png).expect("back to png");
    assert_eq!(sniff(&png), ImageFormat::Png);
}

#[test]
fn empty_input_fails_to_decode() {
    assert_eq!(convert(Vec::new(), ImageFormat::Png), Err(ConversionError::DecodeFailed));
}

#[test]
fn unknown_target_is_rejected_first() {
    let target = ImageFormat::from("garbage".to_string());
    assert_eq!(target, ImageFormat::Unknown);
    assert_eq!(convert(sample_png(), target), Err(ConversionError::UnsupportedTarget));
    // Rejected before decoding: even undecodable bytes give the same error.
    assert_eq!(convert(Vec::new(), target), Err(ConversionError::UnsupportedTarget));
}

#[test]
fn truncated_body_fails_to_decode() {
    let png = sample_png();
    let truncated = png[..png.len() / 2].to_vec();
    assert_eq!(convert(truncated, ImageFormat::Jpeg), Err(ConversionError::DecodeFailed));
}

#[test]
fn corrupt_body_fails_to_decode() {
    let mut png = sample_png();
    let len = png.len();
    for b in &mut png[16..len] {
        *b = 0xAB;
    }
    assert_eq!(convert(png, ImageFormat::Gif), Err(ConversionError::DecodeFailed));
}

#[test]
fn unrecognised_signature_fails_to_decode() {
    assert_eq!(
        convert(vec![1, 2, 3, 4, 5, 6, 7, 8], ImageFormat::Png),
        Err(ConversionError::DecodeFailed)
    );
}

#[test]
fn target_without_encoder_fails_to_encode() {
    assert_eq!(convert(sample_png(), ImageFormat::Hdr), Err(ConversionError::EncodeFailed));
    assert_eq!(convert(sample_png(), ImageFormat::Dds), Err(ConversionError::EncodeFailed));
}

#[test]
fn encoder_answer_is_passed_on() {
    assert_eq!(imgconv::encode_outcome(Ok(vec![1, 2, 3])), Ok(vec![1, 2, 3]));
    let err = image::ImageError::IoError(std::io::Error::new(std::io::ErrorKind::Other, "full"));
    assert_eq!(imgconv::encode_outcome(Err(err)), Err(ConversionError::EncodeFailed));
}

#[test]
fn conversion_is_deterministic() {
    let first = convert(sample_png(), ImageFormat::Jpeg);
    let second = convert(sample_png(), ImageFormat::Jpeg);
    assert!(first.is_ok());
    assert_eq!(first, second);
}

#[test]
fn jpg_and_jpeg_targets_agree() {
    let by_alias = convert(sample_png(), ImageFormat::from("jpg".to_string()));
    let by_name = convert(sample_png(), ImageFormat::from("jpeg".to_string()));
    assert!(by_alias.is_ok());
    assert_eq!(by_alias, by_name);
}

#[test]
fn eight_bit_image_to_openexr_fails_to_encode() {
    // The OpenEXR encoder writes only floating-point pixel images.
    assert_eq!(convert(sample_png(), ImageFormat::OpenExr), Err(ConversionError::EncodeFailed));
}
