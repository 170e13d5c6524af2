use vstd::prelude::*;
use crate::codec::{
    codec_of, decode, decodes, encode, from_codec, guess_codec_format, guessed_format, encodes,
    reencoded,
};
use crate::format::ImageFormat;
use image::ImageError;

verus! {

/// Why a conversion failed.
#[derive(Debug, Clone, Copy, PartialEq, Eq, Structural, Hash)]
pub enum ConversionError {
    /// The target format has no codec selector (the `Unknown` sentinel).
    UnsupportedTarget,
    /// The input bytes are not an image the codec library can decode.
    DecodeFailed,
    /// The codec library could not encode the image in the target format.
    EncodeFailed,
}

/// The format sniffed from a buffer's magic bytes, where the codec library
/// recognises one.
pub open spec fn sniffed(b: Seq<u8>) -> Option<ImageFormat> {
    match guessed_format(b) {
        Some(f) => Some(from_codec(f)),
        None => None,
    }
}

/// The format sniffed from a buffer, with `Unknown` where nothing matches.
pub open spec fn sniff_of(b: Seq<u8>) -> ImageFormat {
    match sniffed(b) {
        Some(f) => f,
        None => ImageFormat::Unknown,
    }
}

/// Guesses the format of an encoded image from its leading magic bytes;
/// `None` where no signature matches.
pub fn guess(buf: Vec<u8>) -> (r: Option<ImageFormat>)
    ensures
        r == sniffed(buf@),
        buf@.len() == 0 ==> r is None,
{
    match guess_codec_format(buf.as_slice()) {
        Ok(f) => Some(ImageFormat::from(f)),
        Err(_) => None,
    }
}

/// Sniffs the format of an encoded image from its leading magic bytes;
/// `Unknown` where no signature matches, an empty buffer included.
pub fn sniff(buf: &[u8]) -> (r: ImageFormat)
    ensures
        r == sniff_of(buf@),
        buf@.len() == 0 ==> r == ImageFormat::Unknown,
{
    match guess_codec_format(buf) {
        Ok(f) => ImageFormat::from(f),
        Err(_) => ImageFormat::Unknown,
    }
}

/// A buffer that starts with the PNG signature sniffs as PNG, whatever follows.
pub proof fn lemma_png_signature(b: Seq<u8>)
    requires
        b.len() >= 8,
        b.subrange(0, 8) == seq![0x89u8, 0x50, 0x4E, 0x47, 0x0D, 0x0A, 0x1A, 0x0A],
    ensures
        sniffed(b) == Some(ImageFormat::Png),
{
}

/// A buffer that starts with the JPEG start-of-image marker and a further
/// 0xFF sniffs as JPEG, whatever follows.
pub proof fn lemma_jpeg_signature(b: Seq<u8>)
    requires
        b.len() >= 3,
        b.subrange(0, 3) == seq![0xFFu8, 0xD8, 0xFF],
    ensures
        sniffed(b) == Some(ImageFormat::Jpeg),
{
    assert(b[0] == b.subrange(0, 3)[0]);
    assert(!crate::codec::starts_with(b, seq![0x89u8, 0x50, 0x4E, 0x47, 0x0D, 0x0A, 0x1A, 0x0A])) by {
        if b.len() >= 8 {
            assert(b.subrange(0, 8)[0] == b[0]);
        }
    }
}

/// Sniffing depends on the bytes alone: equal buffers sniff to the same format.
pub proof fn lemma_sniff_deterministic(a: Seq<u8>, b: Seq<u8>)
    requires
        a == b,
    ensures
        sniff_of(a) == sniff_of(b),
{
}

/// What a conversion returns once the codec library has answered the encode
/// step: its bytes, or `EncodeFailed` whatever its error was.
pub fn encode_outcome(encoded: Result<Vec<u8>, ImageError>) -> (r: Result<Vec<u8>, ConversionError>)
    ensures
        match encoded {
            Ok(out) => r == Ok::<Vec<u8>, ConversionError>(out),
            Err(_) => r == Err::<Vec<u8>, ConversionError>(ConversionError::EncodeFailed),
        },
{
    match encoded {
        Ok(out) => Ok(out),
        Err(_) => Err(ConversionError::EncodeFailed),
    }
}

/// Why converting the encoded image `b` to `fmt` fails: the first step that
/// does, or `None` where all succeed.
pub open spec fn conversion_error(b: Seq<u8>, fmt: ImageFormat) -> Option<ConversionError> {
    match codec_of(fmt) {
        None => Some(ConversionError::UnsupportedTarget),
        Some(c) => if !decodes(b) {
            Some(ConversionError::DecodeFailed)
        } else if !encodes(b, c) {
            Some(ConversionError::EncodeFailed)
        } else {
            None
        },
    }
}

/// Whether the codec writes one fixed byte sequence for a given image in this
/// format: every format but OpenEXR, whose blocks are written in the order in
/// which parallel compression finishes them.
pub open spec fn fixed_output(fmt: ImageFormat) -> bool {
    fmt != ImageFormat::OpenExr
}

/// Decodes an encoded image and re-encodes it in the target format.
///
/// An `Unknown` target is rejected before anything is decoded; bytes that do
/// not decode (an empty buffer, an unrecognised signature, a corrupt body)
/// fail with `DecodeFailed`; a codec that cannot write the target format
/// fails with `EncodeFailed`; otherwise the result is the codec's output,
/// exactly so for every format with a fixed output.
pub fn convert(buf: Vec<u8>, fmt: ImageFormat) -> (r: Result<Vec<u8>, ConversionError>)
    ensures
        match r {
            Ok(out) => conversion_error(buf@, fmt) is None && (fixed_output(fmt) ==> out@
                == reencoded(buf@, codec_of(fmt)->Some_0)),
            Err(e) => conversion_error(buf@, fmt) == Some(e),
        },
        fmt != ImageFormat::Unknown && guessed_format(buf@) is None ==> r == Err::<
            Vec<u8>,
            ConversionError,
        >(ConversionError::DecodeFailed),
        fmt == ImageFormat::Jpeg && r is Ok ==> r->Ok_0@.len() >= 3 && r->Ok_0@.subrange(0, 3)
            == seq![0xFFu8, 0xD8, 0xFF],
{
    let codec = match fmt.codec_token() {
        Ok(c) => c,
        Err(e) => return Err(e),
    };
    let img = match decode(buf.as_slice()) {
        Ok(img) => img,
        Err(_) => return Err(ConversionError::DecodeFailed),
    };
    encode_outcome(encode(&img, codec))
}

} // verus!
