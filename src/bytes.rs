//! Byte-level reading: little-endian integers, fixed byte runs and magic tags.

use vstd::prelude::*;

verus! {

/// Length of a magic tag at the start of a blob.
pub const TAG_LEN: usize = 6;

/// Size of the common file header (tag, version, reserved byte).
pub const FILE_HEADER_SIZE: usize = 8;

/// `"RTPACK"`: the magic tag of a package container.
pub open spec fn package_tag() -> Seq<u8> {
    seq![0x52u8, 0x54u8, 0x50u8, 0x41u8, 0x43u8, 0x4bu8]
}

/// `"RTTXTR"`: the magic tag of a texture blob.
pub open spec fn texture_tag() -> Seq<u8> {
    seq![0x52u8, 0x54u8, 0x54u8, 0x58u8, 0x54u8, 0x52u8]
}

/// A blob carries `tag` when its first six bytes are the tag.
pub open spec fn has_tag(s: Seq<u8>, tag: Seq<u8>) -> bool {
    s.len() >= TAG_LEN && s.subrange(0, TAG_LEN as int) == tag
}

/// The unsigned 32-bit little-endian value of the four bytes at `off`.
pub open spec fn u32_le(s: Seq<u8>, off: int) -> nat {
    (s[off] as nat) + (s[off + 1] as nat) * 256 + (s[off + 2] as nat) * 65536 + (s[off + 3] as nat)
        * 16777216
}

/// The signed (two's complement) 32-bit little-endian value of the four bytes at `off`.
pub open spec fn i32_le(s: Seq<u8>, off: int) -> int {
    if u32_le(s, off) >= 0x8000_0000 {
        u32_le(s, off) - 0x1_0000_0000
    } else {
        u32_le(s, off) as int
    }
}

pub fn read_u32_le(data: &[u8], off: usize) -> (r: u32)
    requires
        off + 4 <= data@.len(),
    ensures
        r as nat == u32_le(data@, off as int),
{
    let b0 = data[off] as u32;
    let b1 = data[off + 1] as u32;
    let b2 = data[off + 2] as u32;
    let b3 = data[off + 3] as u32;
    b0 + b1 * 256 + b2 * 65536 + b3 * 16777216
}

pub fn read_i32_le(data: &[u8], off: usize) -> (r: i32)
    requires
        off + 4 <= data@.len(),
    ensures
        r as int == i32_le(data@, off as int),
{
    let u = read_u32_le(data, off);
    if u >= 0x8000_0000 {
        (u - 0x8000_0000) as i32 - 0x7fff_ffff - 1
    } else {
        u as i32
    }
}

/// Copies the `N` bytes at `off` into an array.
pub fn read_array<const N: usize>(data: &[u8], off: usize) -> (r: [u8; N])
    requires
        off + N <= data@.len(),
    ensures
        r@ == data@.subrange(off as int, off + N),
{
    let len = data.len();
    let mut a = [0u8; N];
    let mut i: usize = 0;
    while i < N
        invariant
            i <= N,
            len == data@.len(),
            off + N <= data@.len(),
            a@.len() == N,
            forall|j: int| 0 <= j < i ==> a@[j] == data@[off + j],
        decreases N - i,
    {
        a[i] = data[off + i];
        i += 1;
    }
    assert(a@ =~= data@.subrange(off as int, off + N));
    a
}

fn starts_with_tag(data: &[u8], tag: &[u8; 6]) -> (r: bool)
    ensures
        r == has_tag(data@, tag@),
{
    if data.len() < TAG_LEN {
        return false;
    }
    let mut i: usize = 0;
    while i < TAG_LEN
        invariant
            i <= TAG_LEN,
            data@.len() >= TAG_LEN,
            tag@.len() == TAG_LEN,
            forall|j: int| 0 <= j < i ==> data@[j] == tag@[j],
        decreases TAG_LEN - i,
    {
        if data[i] != tag[i] {
            assert(data@.subrange(0, TAG_LEN as int)[i as int] != tag@[i as int]);
            return false;
        }
        i += 1;
    }
    assert(data@.subrange(0, TAG_LEN as int) =~= tag@);
    true
}

/// Whether the blob is a package container: its first six bytes are
/// `"RTPACK"`.
pub fn is_a_packed_file(data: &[u8]) -> (r: bool)
    ensures
        r == has_tag(data@, package_tag()),
{
    let tag: [u8; 6] = [0x52, 0x54, 0x50, 0x41, 0x43, 0x4b];
    assert(tag@ =~= package_tag());
    starts_with_tag(data, &tag)
}

/// Whether the blob is a texture: its first six bytes are `"RTTXTR"`.
pub fn is_a_txtr_file(data: &[u8]) -> (r: bool)
    ensures
        r == has_tag(data@, texture_tag()),
{
    let tag: [u8; 6] = [0x52, 0x54, 0x54, 0x58, 0x54, 0x52];
    assert(tag@ =~= texture_tag());
    starts_with_tag(data, &tag)
}

/// No blob shorter than a tag is taken for a package or a texture.
pub proof fn lemma_short_blob_has_no_tag(s: Seq<u8>)
    requires
        s.len() < TAG_LEN,
    ensures
        !has_tag(s, package_tag()),
        !has_tag(s, texture_tag()),
{
}

} // verus!
