//! The fixed-size headers of packages, textures and mip levels.

use vstd::prelude::*;

use crate::bytes::{i32_le, read_array, read_i32_le, read_u32_le, u32_le, FILE_HEADER_SIZE};
use crate::error::{DecodeError, Stage, UnknownValue};

verus! {

/// Size of a package header, file header included.
pub const PACKAGE_HEADER_SIZE: usize = 32;

/// Size of a texture header, file header included.
pub const TEXTURE_HEADER_SIZE: usize = 100;

/// Size of one mip-level header.
pub const MIP_HEADER_SIZE: usize = 24;

/// Format code of byte-per-channel RGBA.
pub const GL_UNSIGNED_BYTE: i32 = 0x1401;

/// Format code of packed 16-bit 5-6-5.
pub const GL_UNSIGNED_SHORT_5_6_5: i32 = 0x8363;

/// Format code of packed 16-bit 4-4-4-4.
pub const GL_UNSIGNED_SHORT_4_4_4_4: i32 = 0x8033;

/// Format code of a payload that is itself another encoded file.
pub const RT_FORMAT_EMBEDDED_FILE: i32 = 20000000;

#[derive(Debug, Clone, Copy, PartialEq, Eq, Structural)]
pub enum ECompressionType {
    Uncompressed,
    Zlib,
}

#[derive(Debug, Clone, Copy, PartialEq, Eq, Structural)]
pub enum ETextureFormat {
    GlUnsignedByte,
    GlUnsignedShort5_6_5,
    GlUnsignedShort4_4_4_4,
    RtFormatEmbeddedFile,
}

/// The compression type that a raw byte stands for, if any.
pub open spec fn compression_of(b: u8) -> Option<ECompressionType> {
    if b == 0 {
        Some(ECompressionType::Uncompressed)
    } else if b == 1 {
        Some(ECompressionType::Zlib)
    } else {
        None
    }
}

/// The texture format that a raw code stands for, if any.
pub open spec fn format_of(code: int) -> Option<ETextureFormat> {
    if code == GL_UNSIGNED_BYTE {
        Some(ETextureFormat::GlUnsignedByte)
    } else if code == GL_UNSIGNED_SHORT_5_6_5 {
        Some(ETextureFormat::GlUnsignedShort5_6_5)
    } else if code == GL_UNSIGNED_SHORT_4_4_4_4 {
        Some(ETextureFormat::GlUnsignedShort4_4_4_4)
    } else if code == RT_FORMAT_EMBEDDED_FILE {
        Some(ETextureFormat::RtFormatEmbeddedFile)
    } else {
        None
    }
}

pub struct RtFileHeader {
    pub file_type_id: [u8; 6],
    pub version: u8,
    pub reserved: u8,
}

pub struct RtPackheader {
    pub file_header: RtFileHeader,
    pub compressed_size: u32,
    pub decompressed_size: u32,
    pub compression_type: ECompressionType,
    pub reserved: [u8; 15],
}

pub struct RttexHeader {
    pub file_header: RtFileHeader,
    pub height: i32,
    pub width: i32,
    pub format: ETextureFormat,
    pub original_height: i32,
    pub original_width: i32,
    pub b_uses_alpha: u8,
    pub b_already_compressed: u8,
    pub reserved_flags: [u8; 2],
    pub mip_map_count: i32,
    pub reserved: [u8; 64],
}

pub struct RttexMipHeader {
    pub height: i32,
    pub width: i32,
    pub data_size: i32,
    pub mip_level: i32,
    pub reserved: [u8; 8],
}

/// `h` holds the file header written at `p` in `s`.
pub open spec fn file_header_at(h: RtFileHeader, s: Seq<u8>, p: int) -> bool {
    &&& h.file_type_id@ == s.subrange(p, p + 6)
    &&& h.version == s[p + 6]
    &&& h.reserved == s[p + 7]
}

/// The error met when reading a package header at `p`, if any: too few
/// bytes, or a compression byte other than 0 or 1.
pub open spec fn package_header_error(s: Seq<u8>, p: int) -> Option<DecodeError> {
    if p + PACKAGE_HEADER_SIZE > s.len() {
        Some(DecodeError::TruncatedInput(Stage::PackageHeader))
    } else if compression_of(s[p + 16]) is None {
        Some(DecodeError::UnknownEnumValue(UnknownValue::CompressionType(s[p + 16])))
    } else {
        None
    }
}

/// `h` holds every field of the package header written at `p` in `s`.
pub open spec fn package_header_at(h: RtPackheader, s: Seq<u8>, p: int) -> bool {
    &&& file_header_at(h.file_header, s, p)
    &&& h.compressed_size as nat == u32_le(s, p + 8)
    &&& h.decompressed_size as nat == u32_le(s, p + 12)
    &&& compression_of(s[p + 16]) == Some(h.compression_type)
    &&& h.reserved@ == s.subrange(p + 17, p + 32)
}

/// The error met when reading a texture header at `p`, if any: too few
/// bytes, or an unknown format code.
pub open spec fn texture_header_error(s: Seq<u8>, p: int) -> Option<DecodeError> {
    if p + TEXTURE_HEADER_SIZE > s.len() {
        Some(DecodeError::TruncatedInput(Stage::TextureHeader))
    } else if format_of(i32_le(s, p + 16)) is None {
        Some(DecodeError::UnknownEnumValue(UnknownValue::TextureFormat(i32_le(s, p + 16) as i32)))
    } else {
        None
    }
}

/// `h` holds every field of the texture header written at `p` in `s`.
pub open spec fn texture_header_at(h: RttexHeader, s: Seq<u8>, p: int) -> bool {
    &&& file_header_at(h.file_header, s, p)
    &&& h.height as int == i32_le(s, p + 8)
    &&& h.width as int == i32_le(s, p + 12)
    &&& format_of(i32_le(s, p + 16)) == Some(h.format)
    &&& h.original_height as int == i32_le(s, p + 20)
    &&& h.original_width as int == i32_le(s, p + 24)
    &&& h.b_uses_alpha == s[p + 28]
    &&& h.b_already_compressed == s[p + 29]
    &&& h.reserved_flags@ == s.subrange(p + 30, p + 32)
    &&& h.mip_map_count as int == i32_le(s, p + 32)
    &&& h.reserved@ == s.subrange(p + 36, p + 100)
}

/// `h` holds every field of the mip-level header written at `p` in `s`.
pub open spec fn mip_header_at(h: RttexMipHeader, s: Seq<u8>, p: int) -> bool {
    &&& h.height as int == i32_le(s, p)
    &&& h.width as int == i32_le(s, p + 4)
    &&& h.data_size as int == i32_le(s, p + 8)
    &&& h.mip_level as int == i32_le(s, p + 12)
    &&& h.reserved@ == s.subrange(p + 16, p + 24)
}

fn read_file_header(data: &[u8], pos: usize) -> (r: RtFileHeader)
    requires
        pos + FILE_HEADER_SIZE <= data@.len() <= usize::MAX,
    ensures
        file_header_at(r, data@, pos as int),
{
    RtFileHeader { file_type_id: read_array::<6>(data, pos), version: data[pos + 6], reserved: data[pos + 7] }
}

impl ECompressionType {
    /// The compression type of a raw byte: 0 is none, 1 is zlib.
    pub fn from_byte(b: u8) -> (r: Option<ECompressionType>)
        ensures
            r == compression_of(b),
    {
        if b == 0 {
            Some(ECompressionType::Uncompressed)
        } else if b == 1 {
            Some(ECompressionType::Zlib)
        } else {
            None
        }
    }
}

impl ETextureFormat {
    /// The texture format of a raw code, among the four known ones.
    pub fn from_code(code: i32) -> (r: Option<ETextureFormat>)
        ensures
            r == format_of(code as int),
    {
        if code == GL_UNSIGNED_BYTE {
            Some(ETextureFormat::GlUnsignedByte)
        } else if code == GL_UNSIGNED_SHORT_5_6_5 {
            Some(ETextureFormat::GlUnsignedShort5_6_5)
        } else if code == GL_UNSIGNED_SHORT_4_4_4_4 {
            Some(ETextureFormat::GlUnsignedShort4_4_4_4)
        } else if code == RT_FORMAT_EMBEDDED_FILE {
            Some(ETextureFormat::RtFormatEmbeddedFile)
        } else {
            None
        }
    }
}

impl ETextureFormat {
    /// The raw code of this format.
    pub fn code(&self) -> (r: i32)
        ensures
            format_of(r as int) == Some(*self),
    {
        match self {
            ETextureFormat::GlUnsignedByte => GL_UNSIGNED_BYTE,
            ETextureFormat::GlUnsignedShort5_6_5 => GL_UNSIGNED_SHORT_5_6_5,
            ETextureFormat::GlUnsignedShort4_4_4_4 => GL_UNSIGNED_SHORT_4_4_4_4,
            ETextureFormat::RtFormatEmbeddedFile => RT_FORMAT_EMBEDDED_FILE,
        }
    }
}

impl RtPackheader {
    /// Reads a package header at `*pos` and moves `*pos` past it; on error
    /// `*pos` is left where it was.
    pub fn deserialize(data: &[u8], pos: &mut usize) -> (r: Result<RtPackheader, DecodeError>)
        ensures
            match package_header_error(data@, *old(pos) as int) {
                Some(e) => r == Err::<RtPackheader, DecodeError>(e) && *final(pos) == *old(pos),
                None => r matches Ok(h) && package_header_at(h, data@, *old(pos) as int)
                    && *final(pos) == *old(pos) + PACKAGE_HEADER_SIZE,
            },
    {
        let p = *pos;
        if data.len() < PACKAGE_HEADER_SIZE || p > data.len() - PACKAGE_HEADER_SIZE {
            return Err(DecodeError::TruncatedInput(Stage::PackageHeader));
        }
        let compression_type = match ECompressionType::from_byte(data[p + 16]) {
            Some(c) => c,
            None => {
                return Err(DecodeError::UnknownEnumValue(UnknownValue::CompressionType(data[p + 16])));
            },
        };
        let h = RtPackheader {
            file_header: read_file_header(data, p),
            compressed_size: read_u32_le(data, p + 8),
            decompressed_size: read_u32_le(data, p + 12),
            compression_type,
            reserved: read_array::<15>(data, p + 17),
        };
        *pos = p + PACKAGE_HEADER_SIZE;
        Ok(h)
    }
}

impl RttexHeader {
    /// Reads a texture header at `*pos` and moves `*pos` past it; on error
    /// `*pos` is left where it was.
    pub fn deserialize(data: &[u8], pos: &mut usize) -> (r: Result<RttexHeader, DecodeError>)
        ensures
            match texture_header_error(data@, *old(pos) as int) {
                Some(e) => r == Err::<RttexHeader, DecodeError>(e) && *final(pos) == *old(pos),
                None => r matches Ok(h) && texture_header_at(h, data@, *old(pos) as int)
                    && *final(pos) == *old(pos) + TEXTURE_HEADER_SIZE,
            },
    {
        let p = *pos;
        if data.len() < TEXTURE_HEADER_SIZE || p > data.len() - TEXTURE_HEADER_SIZE {
            return Err(DecodeError::TruncatedInput(Stage::TextureHeader));
        }
        let code = read_i32_le(data, p + 16);
        let format = match ETextureFormat::from_code(code) {
            Some(f) => f,
            None => {
                return Err(DecodeError::UnknownEnumValue(UnknownValue::TextureFormat(code)));
            },
        };
        let h = RttexHeader {
            file_header: read_file_header(data, p),
            height: read_i32_le(data, p + 8),
            width: read_i32_le(data, p + 12),
            format,
            original_height: read_i32_le(data, p + 20),
            original_width: read_i32_le(data, p + 24),
            b_uses_alpha: data[p + 28],
            b_already_compressed: data[p + 29],
            reserved_flags: read_array::<2>(data, p + 30),
            mip_map_count: read_i32_le(data, p + 32),
            reserved: read_array::<64>(data, p + 36),
        };
        *pos = p + TEXTURE_HEADER_SIZE;
        Ok(h)
    }
}

impl RttexMipHeader {
    /// Reads one mip-level header at `*pos` and moves `*pos` past it; on
    /// error `*pos` is left where it was.
    pub fn deserialize(data: &[u8], pos: &mut usize) -> (r: Result<RttexMipHeader, DecodeError>)
        ensures
            if *old(pos) + MIP_HEADER_SIZE > data@.len() {
                r == Err::<RttexMipHeader, DecodeError>(DecodeError::TruncatedInput(Stage::MipHeader))
                    && *final(pos) == *old(pos)
            } else {
                r matches Ok(h) && mip_header_at(h, data@, *old(pos) as int)
                    && *final(pos) == *old(pos) + MIP_HEADER_SIZE
            },
    {
        let p = *pos;
        if data.len() < MIP_HEADER_SIZE || p > data.len() - MIP_HEADER_SIZE {
            return Err(DecodeError::TruncatedInput(Stage::MipHeader));
        }
        let h = RttexMipHeader {
            height: read_i32_le(data, p),
            width: read_i32_le(data, p + 4),
            data_size: read_i32_le(data, p + 8),
            mip_level: read_i32_le(data, p + 12),
            reserved: read_array::<8>(data, p + 16),
        };
        *pos = p + MIP_HEADER_SIZE;
        Ok(h)
    }
}

} // verus!
