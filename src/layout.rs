//! Well-formed blobs written out byte by byte, and what decoding them gives.

use vstd::prelude::*;

use crate::bytes::{has_tag, i32_le, package_tag, texture_tag, u32_le, TAG_LEN};
use crate::decode::decode_spec;
use crate::error::{DecodeError, UnknownValue};
use crate::header::{format_of, GL_UNSIGNED_BYTE, PACKAGE_HEADER_SIZE, TEXTURE_HEADER_SIZE};
use crate::package::{unpacked, zlib_inflated};
use crate::pixels::{
    flip_rows, lemma_flip_rows_involution, lemma_orientation_flips_rows, PixelGrid,
};
use crate::texture::pixel_start;

verus! {

/// The four little-endian bytes of a value below 2^32.
pub open spec fn le_u32_bytes(x: nat) -> Seq<u8> {
    seq![(x % 256) as u8, (x / 256 % 256) as u8, (x / 65536 % 256) as u8, (x / 16777216 % 256) as u8]
}

/// `n` zero bytes.
pub open spec fn zeros(n: nat) -> Seq<u8> {
    Seq::new(n, |i: int| 0u8)
}

/// The header of a version-0, RGBA texture of `width` by `height` pixels
/// followed by `mip_count` mip-level headers.
pub open spec fn texture_header_bytes(width: nat, height: nat, mip_count: nat) -> Seq<u8> {
    texture_tag() + zeros(2) + le_u32_bytes(height) + le_u32_bytes(width) + le_u32_bytes(
        GL_UNSIGNED_BYTE as nat,
    ) + le_u32_bytes(height) + le_u32_bytes(width) + zeros(4) + le_u32_bytes(mip_count) + zeros(64)
}

/// A texture blob: its header, the mip-level headers `mips`, then the
/// pixel payload `stored` as the container keeps it.
pub open spec fn texture_blob(width: nat, height: nat, mip_count: nat, mips: Seq<u8>, stored: Seq<u8>) -> Seq<u8> {
    texture_header_bytes(width, height, mip_count) + mips + stored
}

/// Four bytes that are the little-endian form of `x` read back as `x`.
proof fn lemma_read_le(s: Seq<u8>, off: int, x: nat)
    requires
        x < 0x8000_0000,
        0 <= off,
        off + 4 <= s.len(),
        s.subrange(off, off + 4) == le_u32_bytes(x),
    ensures
        u32_le(s, off) == x,
        i32_le(s, off) == x,
{
    assert(s[off] == s.subrange(off, off + 4)[0]);
    assert(s[off + 1] == s.subrange(off, off + 4)[1]);
    assert(s[off + 2] == s.subrange(off, off + 4)[2]);
    assert(s[off + 3] == s.subrange(off, off + 4)[3]);
    assert(x == x % 256 + 256 * (x / 256 % 256) + 65536 * (x / 65536 % 256) + 16777216 * (x
        / 16777216 % 256));
}

/// Decoding an RGBA texture blob yields its payload with the order of the
/// rows reversed, whatever its mip-level headers hold.
pub proof fn lemma_decode_texture_blob(width: nat, height: nat, mip_count: nat, mips: Seq<u8>, stored: Seq<u8>)
    requires
        width <= i32::MAX,
        height <= i32::MAX,
        mip_count <= i32::MAX,
        mips.len() == 24 * mip_count,
        stored.len() == width * height * 4,
    ensures
        decode_spec(texture_blob(width, height, mip_count, mips, stored)) == Ok::<Option<PixelGrid>, DecodeError>(
            Some(PixelGrid { width, height, rgba: flip_rows(width, height, stored) }),
        ),
{
    let hdr = texture_header_bytes(width, height, mip_count);
    let s = texture_blob(width, height, mip_count, mips, stored);
    assert(hdr.len() == 100);
    assert(s.subrange(0, 6) =~= texture_tag());
    assert(s[2] != package_tag()[2]);
    assert(s.subrange(0, 6) != package_tag());
    assert(s.subrange(8, 12) =~= le_u32_bytes(height));
    assert(s.subrange(12, 16) =~= le_u32_bytes(width));
    assert(s.subrange(16, 20) =~= le_u32_bytes(GL_UNSIGNED_BYTE as nat));
    assert(s.subrange(32, 36) =~= le_u32_bytes(mip_count));
    lemma_read_le(s, 8, height);
    lemma_read_le(s, 12, width);
    lemma_read_le(s, 16, GL_UNSIGNED_BYTE as nat);
    lemma_read_le(s, 32, mip_count);
    assert(format_of(i32_le(s, 16)) is Some);
    assert(pixel_start(s) == 100 + 24 * mip_count);
    let start: int = 100 + 24 * mip_count as int;
    assert(s.subrange(start, start + (width * height * 4) as int) =~= stored);
    lemma_orientation_flips_rows(width, height, stored);
}

/// A grid stored upside down, as the container keeps it, decodes back to
/// itself.
pub proof fn lemma_round_trip(width: nat, height: nat, mip_count: nat, mips: Seq<u8>, pixels: Seq<u8>)
    requires
        width <= i32::MAX,
        height <= i32::MAX,
        mip_count <= i32::MAX,
        mips.len() == 24 * mip_count,
        pixels.len() == width * height * 4,
    ensures
        decode_spec(texture_blob(width, height, mip_count, mips, flip_rows(width, height, pixels)))
            == Ok::<Option<PixelGrid>, DecodeError>(Some(PixelGrid { width, height, rgba: pixels })),
{
    lemma_decode_texture_blob(width, height, mip_count, mips, flip_rows(width, height, pixels));
    lemma_flip_rows_involution(width, height, pixels);
}

/// A version-0, uncompressed package that frames `body`.
pub open spec fn package_blob(body: Seq<u8>) -> Seq<u8> {
    package_tag() + zeros(2) + le_u32_bytes(0) + le_u32_bytes(body.len()) + zeros(16) + body
}

/// A blob that carries the texture tag does not carry the package tag.
proof fn lemma_texture_is_not_package(s: Seq<u8>)
    requires
        has_tag(s, texture_tag()),
    ensures
        !has_tag(s, package_tag()),
{
    assert(s.subrange(0, 6)[2] != package_tag()[2]);
}

/// A blob shorter than a tag decodes to no image.
pub proof fn lemma_short_blob_is_no_image(s: Seq<u8>)
    requires
        s.len() < TAG_LEN,
    ensures
        decode_spec(s) == Ok::<Option<PixelGrid>, DecodeError>(None),
{
}

/// A package whose compression byte is neither 0 nor 1 is rejected as an
/// unknown compression type, never read as uncompressed or zlib.
pub proof fn lemma_unknown_compression_rejected(s: Seq<u8>)
    requires
        has_tag(s, package_tag()),
        s.len() >= PACKAGE_HEADER_SIZE,
        s[16] > 1,
    ensures
        decode_spec(s) == Err::<Option<PixelGrid>, DecodeError>(
            DecodeError::UnknownEnumValue(UnknownValue::CompressionType(s[16])),
        ),
{
}

/// A texture whose format code is none of the four known ones is rejected
/// as an unknown texture format.
pub proof fn lemma_unknown_format_rejected(s: Seq<u8>)
    requires
        has_tag(s, texture_tag()),
        s.len() >= TEXTURE_HEADER_SIZE,
        format_of(i32_le(s, 16)) is None,
    ensures
        decode_spec(s) == Err::<Option<PixelGrid>, DecodeError>(
            DecodeError::UnknownEnumValue(UnknownValue::TextureFormat(i32_le(s, 16) as i32)),
        ),
{
    lemma_texture_is_not_package(s);
}

/// A package whose body does not start with the texture tag decodes to no
/// image.
pub proof fn lemma_package_without_texture_is_no_image(s: Seq<u8>, body: Seq<u8>)
    requires
        has_tag(s, package_tag()),
        unpacked(s) == Ok::<Seq<u8>, DecodeError>(body),
        !has_tag(body, texture_tag()),
    ensures
        decode_spec(s) == Ok::<Option<PixelGrid>, DecodeError>(None),
{
}

/// A zlib package whose payload inflates to no bytes decodes to no image.
pub proof fn lemma_empty_inflation_is_no_image(s: Seq<u8>)
    requires
        has_tag(s, package_tag()),
        s.len() >= PACKAGE_HEADER_SIZE,
        s[6] == 0,
        s[16] == 1,
        zlib_inflated(s.subrange(PACKAGE_HEADER_SIZE as int, s.len() as int)) == Some(Seq::<u8>::empty()),
    ensures
        decode_spec(s) == Ok::<Option<PixelGrid>, DecodeError>(None),
{
}

/// An uncompressed package decodes as the body it frames, when that body is
/// not empty and not itself a package.
pub proof fn lemma_uncompressed_package(body: Seq<u8>)
    requires
        body.len() > 0,
        body.len() < 0x8000_0000,
        !has_tag(body, package_tag()),
    ensures
        decode_spec(package_blob(body)) == decode_spec(body),
{
    let s = package_blob(body);
    assert(s.subrange(0, 6) =~= package_tag());
    assert(s[6] == 0 && s[16] == 0);
    assert(s.subrange(PACKAGE_HEADER_SIZE as int, s.len() as int) =~= body);
}

} // verus!
