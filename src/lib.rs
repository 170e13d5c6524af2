//! Image container formats: a registry of format names and codec selectors,
//! magic-byte sniffing, and conversion between encodings through the `image`
//! crate.

pub mod codec;
pub mod convert;
pub mod format;

pub use convert::{convert, encode_outcome, guess, sniff, ConversionError};
pub use format::ImageFormat;
