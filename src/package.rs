//! Container framing: the package header and its possibly compressed payload.

use vstd::prelude::*;

use crate::error::DecodeError;
use crate::header::{
    compression_of, package_header_error, ECompressionType, RtPackheader, PACKAGE_HEADER_SIZE,
};

verus! {

/// The only package version this decoder reads.
pub const C_RTFILE_PACKAGE_LATEST_VERSION: u8 = 0;

/// What inflating `data` as a zlib stream gives: the inflated bytes, or
/// nothing when the stream is malformed.
pub uninterp spec fn zlib_inflated(data: Seq<u8>) -> Option<Seq<u8>>;

/// Relies on `flate2::read::ZlibDecoder` read to its end: the bytes that the
/// zlib stream `data` inflates to, which depend on `data` alone, or an error
/// when the stream is malformed.
#[verifier::external_body]
fn inflate_zlib(data: &[u8]) -> (r: Option<Vec<u8>>)
    ensures
        zlib_inflated(data@) == match r {
            Some(v) => Some(v@),
            None => None::<Seq<u8>>,
        },
{
    let mut buffer = Vec::new();
    match std::io::Read::read_to_end(&mut flate2::read::ZlibDecoder::new(data), &mut buffer) {
        Ok(_) => Some(buffer),
        Err(_) => None,
    }
}

/// The body that a package holds: its header is read and checked, and the
/// rest of the blob is the payload, inflated when the header says zlib.
pub open spec fn unpacked(s: Seq<u8>) -> Result<Seq<u8>, DecodeError> {
    match package_header_error(s, 0) {
        Some(e) => Err(e),
        None => if s[6] != C_RTFILE_PACKAGE_LATEST_VERSION {
            Err(DecodeError::UnsupportedVersion(s[6]))
        } else if compression_of(s[16]) == Some(ECompressionType::Zlib) {
            match zlib_inflated(s.subrange(PACKAGE_HEADER_SIZE as int, s.len() as int)) {
                Some(body) => Ok(body),
                None => Err(DecodeError::CorruptCompressedStream),
            }
        } else {
            Ok(s.subrange(PACKAGE_HEADER_SIZE as int, s.len() as int))
        },
    }
}

/// Reads the package header at the start of `data`, checks its version, and
/// returns the body it frames: the rest of the blob, inflated when the
/// header says zlib.
pub fn unpack_package(data: &[u8]) -> (r: Result<Vec<u8>, DecodeError>)
    ensures
        match r {
            Ok(body) => unpacked(data@) == Ok::<Seq<u8>, DecodeError>(body@),
            Err(e) => unpacked(data@) == Err::<Seq<u8>, DecodeError>(e),
        },
{
    let mut pos: usize = 0;
    let header = match RtPackheader::deserialize(data, &mut pos) {
        Ok(h) => h,
        Err(e) => {
            return Err(e);
        },
    };
    if header.file_header.version != C_RTFILE_PACKAGE_LATEST_VERSION {
        return Err(DecodeError::UnsupportedVersion(header.file_header.version));
    }
    let payload = vstd::slice::slice_subrange(data, pos, data.len());
    match header.compression_type {
        ECompressionType::Zlib => match inflate_zlib(payload) {
            Some(body) => Ok(body),
            None => Err(DecodeError::CorruptCompressedStream),
        },
        ECompressionType::Uncompressed => Ok(vstd::slice::slice_to_vec(payload)),
    }
}

} // verus!
