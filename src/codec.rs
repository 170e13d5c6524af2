use vstd::prelude::*;
use crate::convert::ConversionError;
use crate::format::ImageFormat;
use image::ImageFormat as CodecFormat;
use image::codecs::pnm::PnmSubtype;
use image::{DynamicImage, ImageError, ImageOutputFormat};

verus! {

/// The codec library's own format selector.
#[verifier::external_type_specification]
pub struct ExCodecFormat(CodecFormat);

/// The codec library's encoder selector, which carries encoder options.
#[verifier::external_type_specification]
pub struct ExOutputFormat(ImageOutputFormat);

/// The codec library's PNM flavour, an encoder option; opaque here.
#[verifier::external_type_specification]
#[verifier::external_body]
pub struct ExPnmSubtype(PnmSubtype);

/// The codec library's decoded pixel image, opaque here.
#[verifier::external_type_specification]
#[verifier::external_body]
pub struct ExDynamicImage(DynamicImage);

/// The codec library's error, opaque here.
#[verifier::external_type_specification]
#[verifier::external_body]
pub struct ExImageError(ImageError);

/// Whether `b` begins with the bytes of `prefix`.
pub open spec fn starts_with(b: Seq<u8>, prefix: Seq<u8>) -> bool {
    prefix.len() <= b.len() && b.subrange(0, prefix.len() as int) == prefix
}

/// The format the codec library reads off the leading magic bytes of a
/// buffer: the first signature of its table that the buffer starts with, or
/// `None` where none does.
pub open spec fn guessed_format(b: Seq<u8>) -> Option<CodecFormat> {
    if starts_with(b, seq![0x89u8, 0x50, 0x4e, 0x47, 0x0d, 0x0a, 0x1a, 0x0a]) {
        Some(CodecFormat::Png)
    } else if starts_with(b, seq![0xffu8, 0xd8, 0xff]) {
        Some(CodecFormat::Jpeg)
    } else if starts_with(b, seq![0x47u8, 0x49, 0x46, 0x38, 0x39, 0x61]) {
        Some(CodecFormat::Gif)
    } else if starts_with(b, seq![0x47u8, 0x49, 0x46, 0x38, 0x37, 0x61]) {
        Some(CodecFormat::Gif)
    } else if starts_with(b, seq![0x52u8, 0x49, 0x46, 0x46]) {
        Some(CodecFormat::WebP)
    } else if starts_with(b, seq![0x4du8, 0x4d, 0x00, 0x2a]) {
        Some(CodecFormat::Tiff)
    } else if starts_with(b, seq![0x49u8, 0x49, 0x2a, 0x00]) {
        Some(CodecFormat::Tiff)
    } else if starts_with(b, seq![0x44u8, 0x44, 0x53, 0x20]) {
        Some(CodecFormat::Dds)
    } else if starts_with(b, seq![0x42u8, 0x4d]) {
        Some(CodecFormat::Bmp)
    } else if starts_with(b, seq![0x00u8, 0x00, 0x01, 0x00]) {
        Some(CodecFormat::Ico)
    } else if starts_with(b, seq![0x23u8, 0x3f, 0x52, 0x41, 0x44, 0x49, 0x41, 0x4e, 0x43, 0x45]) {
        Some(CodecFormat::Hdr)
    } else if starts_with(b, seq![0x50u8, 0x31]) {
        Some(CodecFormat::Pnm)
    } else if starts_with(b, seq![0x50u8, 0x32]) {
        Some(CodecFormat::Pnm)
    } else if starts_with(b, seq![0x50u8, 0x33]) {
        Some(CodecFormat::Pnm)
    } else if starts_with(b, seq![0x50u8, 0x34]) {
        Some(CodecFormat::Pnm)
    } else if starts_with(b, seq![0x50u8, 0x35]) {
        Some(CodecFormat::Pnm)
    } else if starts_with(b, seq![0x50u8, 0x36]) {
        Some(CodecFormat::Pnm)
    } else if starts_with(b, seq![0x50u8, 0x37]) {
        Some(CodecFormat::Pnm)
    } else if starts_with(b, seq![0x66u8, 0x61, 0x72, 0x62, 0x66, 0x65, 0x6c, 0x64]) {
        Some(CodecFormat::Farbfeld)
    } else if starts_with(b, seq![0x00u8, 0x00, 0x00, 0x20, 0x66, 0x74, 0x79, 0x70, 0x61, 0x76, 0x69, 0x66]) {
        Some(CodecFormat::Avif)
    } else if starts_with(b, seq![0x00u8, 0x00, 0x00, 0x1c, 0x66, 0x74, 0x79, 0x70, 0x61, 0x76, 0x69, 0x66]) {
        Some(CodecFormat::Avif)
    } else if starts_with(b, seq![0x76u8, 0x2f, 0x31, 0x01]) {
        Some(CodecFormat::OpenExr)
    } else if starts_with(b, seq![0x71u8, 0x6f, 0x69, 0x66]) {
        Some(CodecFormat::Qoi)
    } else {
        None
    }
}

/// Whether the codec library decodes a buffer into a pixel image.
pub uninterp spec fn decodes(b: Seq<u8>) -> bool;

/// Whether the codec library encodes, in the given format, the image it
/// decodes from `b` (two calls in a row: decoding, then encoding).
pub uninterp spec fn encodes(b: Seq<u8>, f: CodecFormat) -> bool;

/// The bytes the codec library writes when it encodes, in the given format,
/// the image it decodes from `b` (two calls in a row: decoding, then
/// encoding). Meaningful only where that succeeds, and only for the formats
/// whose encoder writes the same bytes on every run: the OpenEXR encoder
/// compresses its blocks in parallel and writes them as they finish, so its
/// output is not one fixed sequence.
pub uninterp spec fn reencoded(b: Seq<u8>, f: CodecFormat) -> Seq<u8>;

/// Relies on image::guess_format: the format of the first signature of its
/// magic-byte table that the buffer starts with, and an error where none does.
#[verifier::external_body]
pub(crate) fn guess_codec_format(buf: &[u8]) -> (r: Result<CodecFormat, ImageError>)
    ensures
        match r {
            Ok(f) => guessed_format(buf@) == Some(f),
            Err(_) => guessed_format(buf@) is None,
        },
{
    image::guess_format(buf)
}

/// Relies on image::load_from_memory: whether a buffer decodes depends on its
/// bytes alone, and the format is first guessed from the magic bytes, so a
/// buffer whose format cannot be guessed does not decode.
#[verifier::external_body]
fn load(buf: &[u8]) -> (r: Result<DynamicImage, ImageError>)
    ensures
        r is Ok == decodes(buf@),
        r is Ok ==> guessed_format(buf@) is Some,
{
    image::load_from_memory(buf)
}

/// A pixel image together with the encoded bytes it was decoded from. Only
/// `decode` makes one, so `source` is always the buffer that `image` holds
/// the decoding of.
pub(crate) struct DecodedImage {
    image: DynamicImage,
    source: Ghost<Seq<u8>>,
}

impl DecodedImage {
    /// The encoded bytes this image was decoded from.
    pub closed spec fn source(&self) -> Seq<u8> {
        self.source@
    }
}

/// Decodes an encoded image, remembering the bytes it came from.
pub(crate) fn decode(buf: &[u8]) -> (r: Result<DecodedImage, ImageError>)
    ensures
        r is Ok == decodes(buf@),
        r is Ok ==> r->Ok_0.source() == buf@,
        guessed_format(buf@) is None ==> r is Err,
{
    match load(buf) {
        Ok(image) => Ok(DecodedImage { image, source: Ghost(buf@) }),
        Err(e) => Err(e),
    }
}

/// Relies on DynamicImage::write_to: encodes the image in the given format
/// into a fresh in-memory buffer, or reports why it cannot. Whether it
/// succeeds depends on the image and the format alone; so do the bytes, but
/// for OpenEXR, whose block order follows the threads that compress them.
/// The JPEG encoder writes the start-of-image marker and then the next
/// marker's 0xFF before anything else.
#[verifier::external_body]
pub(crate) fn encode(img: &DecodedImage, fmt: CodecFormat) -> (r: Result<Vec<u8>, ImageError>)
    ensures
        r is Ok == encodes(img.source(), fmt),
        fmt != CodecFormat::OpenExr && r is Ok ==> r->Ok_0@ == reencoded(img.source(), fmt),
        fmt == CodecFormat::Jpeg && r is Ok ==> r->Ok_0@.len() >= 3 && r->Ok_0@.subrange(0, 3)
            == seq![0xFFu8, 0xD8, 0xFF],
{
    let mut out = std::io::Cursor::new(Vec::new());
    match img.image.write_to(&mut out, fmt) {
        Ok(()) => Ok(out.into_inner()),
        Err(e) => Err(e),
    }
}

/// The library format that stands for a codec format; the codec's formats
/// that the library does not list (WebP, AVIF) are `Unknown`.
pub open spec fn from_codec(f: CodecFormat) -> ImageFormat {
    match f {
        CodecFormat::Png => ImageFormat::Png,
        CodecFormat::Jpeg => ImageFormat::Jpeg,
        CodecFormat::Gif => ImageFormat::Gif,
        CodecFormat::Bmp => ImageFormat::Bmp,
        CodecFormat::Ico => ImageFormat::Ico,
        CodecFormat::Tiff => ImageFormat::Tiff,
        CodecFormat::Tga => ImageFormat::Tga,
        CodecFormat::Dds => ImageFormat::Dds,
        CodecFormat::Hdr => ImageFormat::Hdr,
        CodecFormat::Farbfeld => ImageFormat::Farbfeld,
        CodecFormat::Pnm => ImageFormat::Pnm,
        CodecFormat::OpenExr => ImageFormat::OpenExr,
        CodecFormat::Qoi => ImageFormat::Qoi,
        _ => ImageFormat::Unknown,
    }
}

/// The codec selector of a library format; the sentinel has none.
pub open spec fn codec_of(f: ImageFormat) -> Option<CodecFormat> {
    match f {
        ImageFormat::Png => Some(CodecFormat::Png),
        ImageFormat::Jpeg => Some(CodecFormat::Jpeg),
        ImageFormat::Gif => Some(CodecFormat::Gif),
        ImageFormat::Bmp => Some(CodecFormat::Bmp),
        ImageFormat::Ico => Some(CodecFormat::Ico),
        ImageFormat::Tiff => Some(CodecFormat::Tiff),
        ImageFormat::Tga => Some(CodecFormat::Tga),
        ImageFormat::Dds => Some(CodecFormat::Dds),
        ImageFormat::Hdr => Some(CodecFormat::Hdr),
        ImageFormat::Farbfeld => Some(CodecFormat::Farbfeld),
        ImageFormat::Pnm => Some(CodecFormat::Pnm),
        ImageFormat::OpenExr => Some(CodecFormat::OpenExr),
        ImageFormat::Qoi => Some(CodecFormat::Qoi),
        ImageFormat::Unknown => None,
    }
}

impl From<CodecFormat> for ImageFormat {
    fn from(fmt: CodecFormat) -> (r: ImageFormat)
        ensures
            r == from_codec(fmt),
    {
        match fmt {
            CodecFormat::Png => ImageFormat::Png,
            CodecFormat::Jpeg => ImageFormat::Jpeg,
            CodecFormat::Gif => ImageFormat::Gif,
            CodecFormat::Bmp => ImageFormat::Bmp,
            CodecFormat::Ico => ImageFormat::Ico,
            CodecFormat::Tiff => ImageFormat::Tiff,
            CodecFormat::Tga => ImageFormat::Tga,
            CodecFormat::Dds => ImageFormat::Dds,
            CodecFormat::Hdr => ImageFormat::Hdr,
            CodecFormat::Farbfeld => ImageFormat::Farbfeld,
            CodecFormat::Pnm => ImageFormat::Pnm,
            CodecFormat::OpenExr => ImageFormat::OpenExr,
            CodecFormat::Qoi => ImageFormat::Qoi,
            _ => ImageFormat::Unknown,
        }
    }
}

impl vstd::std_specs::convert::FromSpecImpl<CodecFormat> for ImageFormat {
    open spec fn obeys_from_spec() -> bool {
        true
    }

    open spec fn from_spec(fmt: CodecFormat) -> ImageFormat {
        from_codec(fmt)
    }
}

/// The library format an encoder selector writes, whatever its options; the
/// encoders the library does not list (WebP) and the codec's error value are
/// `Unknown`.
pub open spec fn from_output(f: ImageOutputFormat) -> ImageFormat {
    match f {
        ImageOutputFormat::Png => ImageFormat::Png,
        ImageOutputFormat::Jpeg(_) => ImageFormat::Jpeg,
        ImageOutputFormat::Gif => ImageFormat::Gif,
        ImageOutputFormat::Bmp => ImageFormat::Bmp,
        ImageOutputFormat::Ico => ImageFormat::Ico,
        ImageOutputFormat::Tiff => ImageFormat::Tiff,
        ImageOutputFormat::Tga => ImageFormat::Tga,
        ImageOutputFormat::Farbfeld => ImageFormat::Farbfeld,
        ImageOutputFormat::Pnm(_) => ImageFormat::Pnm,
        ImageOutputFormat::OpenExr => ImageFormat::OpenExr,
        ImageOutputFormat::Qoi => ImageFormat::Qoi,
        _ => ImageFormat::Unknown,
    }
}

impl From<ImageOutputFormat> for ImageFormat {
    fn from(fmt: ImageOutputFormat) -> (r: ImageFormat)
        ensures
            r == from_output(fmt),
    {
        match fmt {
            ImageOutputFormat::Png => ImageFormat::Png,
            ImageOutputFormat::Jpeg(_) => ImageFormat::Jpeg,
            ImageOutputFormat::Gif => ImageFormat::Gif,
            ImageOutputFormat::Bmp => ImageFormat::Bmp,
            ImageOutputFormat::Ico => ImageFormat::Ico,
            ImageOutputFormat::Tiff => ImageFormat::Tiff,
            ImageOutputFormat::Tga => ImageFormat::Tga,
            ImageOutputFormat::Farbfeld => ImageFormat::Farbfeld,
            ImageOutputFormat::Pnm(_) => ImageFormat::Pnm,
            ImageOutputFormat::OpenExr => ImageFormat::OpenExr,
            ImageOutputFormat::Qoi => ImageFormat::Qoi,
            _ => ImageFormat::Unknown,
        }
    }
}

impl vstd::std_specs::convert::FromSpecImpl<ImageOutputFormat> for ImageFormat {
    open spec fn obeys_from_spec() -> bool {
        true
    }

    open spec fn from_spec(fmt: ImageOutputFormat) -> ImageFormat {
        from_output(fmt)
    }
}

impl ImageFormat {
    /// The codec selector for this format; the `Unknown` sentinel has none and
    /// fails with `UnsupportedTarget`.
    pub fn codec_token(&self) -> (r: Result<CodecFormat, ConversionError>)
        ensures
            r is Err <==> *self == ImageFormat::Unknown,
            match codec_of(*self) {
                Some(c) => r == Ok::<CodecFormat, ConversionError>(c),
                None => r == Err::<CodecFormat, ConversionError>(ConversionError::UnsupportedTarget),
            },
    {
        match self {
            ImageFormat::Png => Ok(CodecFormat::Png),
            ImageFormat::Jpeg => Ok(CodecFormat::Jpeg),
            ImageFormat::Gif => Ok(CodecFormat::Gif),
            ImageFormat::Bmp => Ok(CodecFormat::Bmp),
            ImageFormat::Ico => Ok(CodecFormat::Ico),
            ImageFormat::Tiff => Ok(CodecFormat::Tiff),
            ImageFormat::Tga => Ok(CodecFormat::Tga),
            ImageFormat::Dds => Ok(CodecFormat::Dds),
            ImageFormat::Hdr => Ok(CodecFormat::Hdr),
            ImageFormat::Farbfeld => Ok(CodecFormat::Farbfeld),
            ImageFormat::Pnm => Ok(CodecFormat::Pnm),
            ImageFormat::OpenExr => Ok(CodecFormat::OpenExr),
            ImageFormat::Qoi => Ok(CodecFormat::Qoi),
            ImageFormat::Unknown => Err(ConversionError::UnsupportedTarget),
        }
    }
}

/// The `Unknown` sentinel alone has no codec selector; every other format
/// has exactly one, and it maps back to the same format.
pub proof fn lemma_codec_selector(f: ImageFormat)
    ensures
        codec_of(f) is None <==> f == ImageFormat::Unknown,
        f != ImageFormat::Unknown ==> from_codec(codec_of(f)->Some_0) == f,
{
}

} // verus!
