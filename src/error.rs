//! What can go wrong while decoding, and where.

use vstd::prelude::*;

verus! {

/// The part of the blob that was being read when the input ran out.
#[derive(Debug, Clone, Copy, PartialEq, Eq, Structural)]
pub enum Stage {
    PackageHeader,
    TextureHeader,
    MipHeader,
    PixelData,
}

/// A field whose raw value is outside its documented set.
#[derive(Debug, Clone, Copy, PartialEq, Eq, Structural)]
pub enum UnknownValue {
    CompressionType(u8),
    TextureFormat(i32),
}

/// A fatal decoding error. "Not an image" is not an error: decoding
/// reports it as an absent result.
#[derive(Debug, Clone, Copy, PartialEq, Eq, Structural)]
pub enum DecodeError {
    /// The blob ends before a fixed-size header or the pixel payload.
    TruncatedInput(Stage),
    /// A compression type or texture format code is not a known one.
    UnknownEnumValue(UnknownValue),
    /// The package version is not the supported one (0).
    UnsupportedVersion(u8),
    /// The zlib payload of a package does not inflate.
    CorruptCompressedStream,
    /// The texture declares a negative width or height.
    InvalidDimensions,
    /// The texture is in a known format that this decoder does not extract.
    UnsupportedPixelFormat(i32),
}

} // verus!
