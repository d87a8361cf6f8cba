//! The whole pipeline: container framing, then the texture stage.

use vstd::prelude::*;

use crate::bytes::{has_tag, is_a_packed_file, package_tag};
use crate::error::DecodeError;
use crate::package::{unpack_package, unpacked};
use crate::pixels::{PixelBuffer, PixelGrid};
use crate::texture::{decode_texture, outcome_view, outcome_wf, texture_spec};

verus! {

/// What decoding a blob yields. A package is unpacked first and its body is
/// the candidate texture (an empty body is no image); any other blob is
/// itself the candidate texture.
pub open spec fn decode_spec(s: Seq<u8>) -> Result<Option<PixelGrid>, DecodeError> {
    if !has_tag(s, package_tag()) {
        texture_spec(s)
    } else {
        match unpacked(s) {
            Err(e) => Err(e),
            Ok(body) => if body.len() == 0 {
                Ok(None)
            } else {
                texture_spec(body)
            },
        }
    }
}

/// Decodes an RTPACK or RTTEX blob into its base level's RGBA pixels in
/// top-left-origin orientation. `Ok(None)` means the blob holds no image
/// that this decoder extracts; `Err` means the blob is broken.
pub fn decode(data: &[u8]) -> (r: Result<Option<PixelBuffer>, DecodeError>)
    ensures
        outcome_view(r) == decode_spec(data@),
        outcome_wf(r),
{
    if !is_a_packed_file(data) {
        return decode_texture(data);
    }
    let body = match unpack_package(data) {
        Ok(b) => b,
        Err(e) => {
            return Err(e);
        },
    };
    if body.len() == 0 {
        return Ok(None);
    }
    decode_texture(body.as_slice())
}

} // verus!
