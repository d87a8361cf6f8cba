//! The texture stage: header, mip-level headers, then the base level's pixels.

use vstd::prelude::*;

use crate::bytes::{has_tag, i32_le, is_a_txtr_file, texture_tag};
use crate::error::{DecodeError, Stage};
use crate::header::{
    texture_header_error, ETextureFormat, RttexHeader, RttexMipHeader, GL_UNSIGNED_BYTE,
    MIP_HEADER_SIZE, TEXTURE_HEADER_SIZE,
};
use crate::pixels::{extract_pixels, pixels_spec, PixelBuffer, PixelGrid};

verus! {

/// Number of mip-level headers that follow a header declaring `count`: a
/// count below one declares none.
pub open spec fn mips_declared(count: int) -> int {
    if count > 0 {
        count
    } else {
        0
    }
}

/// Where the pixel payload of a texture blob starts: after its header and
/// every mip-level header it declares.
pub open spec fn pixel_start(s: Seq<u8>) -> int {
    TEXTURE_HEADER_SIZE + MIP_HEADER_SIZE * mips_declared(i32_le(s, 32))
}

/// What the texture stage yields for a candidate blob: nothing when it is not
/// a texture, else the oriented base-level pixels or the first error met.
pub open spec fn texture_spec(s: Seq<u8>) -> Result<Option<PixelGrid>, DecodeError> {
    if !has_tag(s, texture_tag()) {
        Ok(None)
    } else {
        match texture_header_error(s, 0) {
            Some(e) => Err(e),
            None => if pixel_start(s) > s.len() {
                Err(DecodeError::TruncatedInput(Stage::MipHeader))
            } else if i32_le(s, 16) != GL_UNSIGNED_BYTE {
                Err(DecodeError::UnsupportedPixelFormat(i32_le(s, 16) as i32))
            } else {
                match pixels_spec(s, pixel_start(s), i32_le(s, 12), i32_le(s, 8)) {
                    Ok(g) => Ok(Some(g)),
                    Err(e) => Err(e),
                }
            },
        }
    }
}

/// The outcome of a decode as mathematical values.
pub open spec fn outcome_view(r: Result<Option<PixelBuffer>, DecodeError>) -> Result<Option<PixelGrid>, DecodeError> {
    match r {
        Ok(Some(b)) => Ok(Some(b@)),
        Ok(None) => Ok(None),
        Err(e) => Err(e),
    }
}

/// Every buffer in the outcome holds four bytes per pixel.
pub open spec fn outcome_wf(r: Result<Option<PixelBuffer>, DecodeError>) -> bool {
    r matches Ok(Some(b)) ==> b.wf()
}

/// Moves `*pos` past the `count` mip-level headers that start there (none
/// when `count` is below one), reading each of them.
pub fn skip_mip_headers(data: &[u8], pos: &mut usize, count: i32) -> (r: Result<(), DecodeError>)
    ensures
        if mips_declared(count as int) > 0 && *old(pos) + MIP_HEADER_SIZE * mips_declared(
            count as int,
        ) > data@.len() {
            r == Err::<(), DecodeError>(DecodeError::TruncatedInput(Stage::MipHeader))
        } else {
            r == Ok::<(), DecodeError>(()) && *final(pos) == *old(pos) + MIP_HEADER_SIZE
                * mips_declared(count as int)
        },
{
    let ghost start = *pos;
    let mut i: i32 = 0;
    while i < count
        invariant
            0 <= i,
            start == *old(pos),
            count > 0 ==> i <= count,
            count <= 0 ==> i == 0,
            *pos == start + MIP_HEADER_SIZE * i,
            i > 0 ==> *pos <= data@.len(),
        decreases count - i,
    {
        match RttexMipHeader::deserialize(data, pos) {
            Ok(_) => {},
            Err(e) => {
                return Err(e);
            },
        }
        i += 1;
    }
    Ok(())
}

/// Decodes a candidate texture blob: `Ok(None)` when it does not start with
/// `"RTTXTR"`, else its base level's RGBA pixels in top-left-origin
/// orientation, or the first error met.
pub fn decode_texture(data: &[u8]) -> (r: Result<Option<PixelBuffer>, DecodeError>)
    ensures
        outcome_view(r) == texture_spec(data@),
        outcome_wf(r),
{
    if !is_a_txtr_file(data) {
        return Ok(None);
    }
    let mut pos: usize = 0;
    let header = match RttexHeader::deserialize(data, &mut pos) {
        Ok(h) => h,
        Err(e) => {
            return Err(e);
        },
    };
    match skip_mip_headers(data, &mut pos, header.mip_map_count) {
        Ok(()) => {},
        Err(e) => {
            return Err(e);
        },
    }
    match header.format {
        ETextureFormat::GlUnsignedByte => {},
        _ => {
            return Err(DecodeError::UnsupportedPixelFormat(header.format.code()));
        },
    }
    match extract_pixels(data, pos, header.width, header.height) {
        Ok(b) => Ok(Some(b)),
        Err(e) => Err(e),
    }
}

} // verus!
