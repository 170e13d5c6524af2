use image::ImageOutputFormat;
use imgconv::{ConversionError, ImageFormat};

const KNOWN: [(ImageFormat, &str, u8); 13] = [
    (ImageFormat::Png, "png", 0),
    (ImageFormat::Jpeg, "jpeg", 1),
    (ImageFormat::Gif, "gif", 2),
    (ImageFormat::Bmp, "bmp", 4),
    (ImageFormat::Ico, "ico", 5),
    (ImageFormat::Tiff, "tiff", 6),
    (ImageFormat::Tga, "tga", 7),
    (ImageFormat::Dds, "dds", 8),
    (ImageFormat::Hdr, "hdr", 9),
    (ImageFormat::Farbfeld, "farbfeld", 10),
    (ImageFormat::Pnm, "pnm", 11),
    (ImageFormat::OpenExr, "exr", 12),
    (ImageFormat::Qoi, "qoi", 13),
];

#[test]
fn canonical_names() {
    for (fmt, name, _) in KNOWN {
        assert_eq!(fmt.to_string(), name);
    }
    assert_eq!(ImageFormat::Unknown.to_string(), "unknown");
}

#[test]
fn stable_codes() {
    for (fmt, _, code) in KNOWN {
        assert_eq!(fmt.code(), code);
    }
    assert_eq!(ImageFormat::Unknown.code(), 14);
}

#[test]
fn name_round_trip() {
    for (fmt, _, _) in KNOWN {
        assert_eq!(ImageFormat::from(fmt.to_string()), fmt);
    }
}

#[test]
fn jpg_alias_matches_jpeg() {
    assert_eq!(ImageFormat::from("jpg".to_string()), ImageFormat::Jpeg);
    assert_eq!(
        ImageFormat::from("jpg".to_string()),
        ImageFormat::from("jpeg".to_string())
    );
}

#[test]
fn unrecognised_names_are_unknown() {
    for name in ["", "PNG", "Jpeg", "JPG", "jpeg ", " png", "webp", "avif", "tif", "unknown", "garbage"] {
        assert_eq!(ImageFormat::from(name.to_string()), ImageFormat::Unknown, "{name}");
    }
}

#[test]
fn codec_token_of_unknown_fails() {
    assert_eq!(
        ImageFormat::Unknown.codec_token(),
        Err(ConversionError::UnsupportedTarget)
    );
}

#[test]
fn codec_token_of_known_formats() {
    for (fmt, _, _) in KNOWN {
        let token = fmt.codec_token().expect("known format has a codec selector");
        assert_eq!(ImageFormat::from(token), fmt);
    }
    assert_eq!(ImageFormat::Png.codec_token(), Ok(image::ImageFormat::Png));
    assert_eq!(ImageFormat::OpenExr.codec_token(), Ok(image::ImageFormat::OpenExr));
}

#[test]
fn codec_formats_outside_the_registry_are_unknown() {
    assert_eq!(ImageFormat::from(image::ImageFormat::WebP), ImageFormat::Unknown);
    assert_eq!(ImageFormat::from(image::ImageFormat::Avif), ImageFormat::Unknown);
    assert_eq!(ImageFormat::from(image::ImageFormat::Qoi), ImageFormat::Qoi);
}

#[test]
fn encoder_selectors_map_to_formats() {
    assert_eq!(ImageFormat::from(ImageOutputFormat::Png), ImageFormat::Png);
    assert_eq!(ImageFormat::from(ImageOutputFormat::Jpeg(90)), ImageFormat::Jpeg);
    assert_eq!(
        ImageFormat::from(ImageOutputFormat::Pnm(image::codecs::pnm::PnmSubtype::ArbitraryMap)),
        ImageFormat::Pnm
    );
    assert_eq!(ImageFormat::from(ImageOutputFormat::OpenExr), ImageFormat::OpenExr);
    assert_eq!(ImageFormat::from(ImageOutputFormat::WebP), ImageFormat::Unknown);
    assert_eq!(
        ImageFormat::from(ImageOutputFormat::Unsupported("webp2".to_string())),
        ImageFormat::Unknown
    );
}
