use std::io::Write;

use byteorder::{LittleEndian, WriteBytesExt};
use flate2::write::ZlibEncoder;
use flate2::Compression;
use rttex::{
    decode, decode_texture, extract_pixels, is_a_packed_file, is_a_txtr_file, read_i32_le,
    read_u32_le, skip_mip_headers, unpack_package, DecodeError, ECompressionType, ETextureFormat,
    RtPackheader, RttexHeader, RttexMipHeader, Stage, UnknownValue,
};

const RGBA: i32 = 0x1401;

fn texture_with(width: i32, height: i32, format: i32, mip_count: i32, mips: &[u8], pixels: &[u8]) -> Vec<u8> {
    let mut v = Vec::new();
    v.extend_from_slice(b"RTTXTR");
    v.push(0);
    v.push(0);
    v.write_i32::<LittleEndian>(height).unwrap();
    v.write_i32::<LittleEndian>(width).unwrap();
    v.write_i32::<LittleEndian>(format).unwrap();
    v.write_i32::<LittleEndian>(height).unwrap();
    v.write_i32::<LittleEndian>(width).unwrap();
    v.push(1);
    v.push(0);
    v.extend_from_slice(&[0, 0]);
    v.write_i32::<LittleEndian>(mip_count).unwrap();
    v.extend_from_slice(&[0u8; 64]);
    assert_eq!(v.len(), 100);
    v.extend_from_slice(mips);
    v.extend_from_slice(pixels);
    v
}

fn texture(width: i32, height: i32, pixels: &[u8]) -> Vec<u8> {
    texture_with(width, height, RGBA, 0, &[], pixels)
}

fn package(version: u8, compression: u8, decompressed_size: u32, payload: &[u8]) -> Vec<u8> {
    let mut v = Vec::new();
    v.extend_from_slice(b"RTPACK");
    v.push(version);
    v.push(0);
    v.write_u32::<LittleEndian>(payload.len() as u32).unwrap();
    v.write_u32::<LittleEndian>(decompressed_size).unwrap();
    v.push(compression);
    v.extend_from_slice(&[0u8; 15]);
    assert_eq!(v.len(), 32);
    v.extend_from_slice(payload);
    v
}

fn zlib(body: &[u8]) -> Vec<u8> {
    let mut e = ZlibEncoder::new(Vec::new(), Compression::default());
    e.write_all(body).unwrap();
    e.finish().unwrap()
}

/// Six distinct pixels in a 3 by 2 grid, row by row.
fn grid_3x2() -> Vec<u8> {
    (0u8..24).collect()
}

/// The same grid with its two rows swapped.
fn grid_3x2_rows_swapped() -> Vec<u8> {
    let g = grid_3x2();
    let mut v = g[12..24].to_vec();
    v.extend_from_slice(&g[0..12]);
    v
}

#[test]
fn tags_are_recognised() {
    assert!(is_a_packed_file(b"RTPACK\0\0"));
    assert!(!is_a_txtr_file(b"RTPACK\0\0"));
    assert!(is_a_txtr_file(b"RTTXTR\0\0rest"));
    assert!(!is_a_packed_file(b"RTTXTR\0\0rest"));
    assert!(!is_a_packed_file(b"rtpack\0\0"));
    assert!(!is_a_txtr_file(b"XTTXTR\0\0"));
}

#[test]
fn short_buffers_match_no_tag() {
    for s in [&b""[..], b"R", b"RTPAC", b"RTTXT"] {
        assert!(!is_a_packed_file(s));
        assert!(!is_a_txtr_file(s));
        assert!(decode(s).unwrap().is_none());
    }
}

#[test]
fn six_byte_tags_are_recognised() {
    for s in [&b"RTPACK"[..], b"RTPACK\0"] {
        assert!(is_a_packed_file(s));
        assert!(!is_a_txtr_file(s));
        assert_eq!(decode(s).unwrap_err(), DecodeError::TruncatedInput(Stage::PackageHeader));
    }
    for s in [&b"RTTXTR"[..], b"RTTXTR\0"] {
        assert!(is_a_txtr_file(s));
        assert!(!is_a_packed_file(s));
        assert_eq!(decode(s).unwrap_err(), DecodeError::TruncatedInput(Stage::TextureHeader));
    }
}

#[test]
fn package_of_truncated_texture_is_rejected() {
    let body = b"RTTXTR\0".to_vec();
    let blob = package(0, 0, body.len() as u32, &body);
    assert_eq!(decode(&blob).unwrap_err(), DecodeError::TruncatedInput(Stage::TextureHeader));
}

#[test]
fn little_endian_reads() {
    let b = [0x78, 0x56, 0x34, 0x12, 0xff, 0xff, 0xff, 0xff];
    assert_eq!(read_u32_le(&b, 0), 0x1234_5678);
    assert_eq!(read_u32_le(&b, 4), 0xffff_ffff);
    assert_eq!(read_i32_le(&b, 4), -1);
    assert_eq!(read_i32_le(&b, 0), 0x1234_5678);
    assert_eq!(read_i32_le(&[0, 0, 0, 0x80], 0), i32::MIN);
}

#[test]
fn unknown_compression_type_is_rejected() {
    let blob = package(0, 2, 0, &texture(1, 1, &[1, 2, 3, 4]));
    assert_eq!(
        decode(&blob).unwrap_err(),
        DecodeError::UnknownEnumValue(UnknownValue::CompressionType(2))
    );
}

#[test]
fn unknown_texture_format_is_rejected() {
    let blob = texture_with(1, 1, 0x1234, 0, &[], &[1, 2, 3, 4]);
    assert_eq!(
        decode(&blob).unwrap_err(),
        DecodeError::UnknownEnumValue(UnknownValue::TextureFormat(0x1234))
    );
    let packed = package(0, 0, blob.len() as u32, &blob);
    assert_eq!(
        decode(&packed).unwrap_err(),
        DecodeError::UnknownEnumValue(UnknownValue::TextureFormat(0x1234))
    );
}

#[test]
fn known_non_rgba_formats_are_not_extracted() {
    for code in [0x8363, 0x8033, 20000000] {
        let blob = texture_with(1, 1, code, 0, &[], &[1, 2, 3, 4]);
        assert_eq!(decode(&blob).unwrap_err(), DecodeError::UnsupportedPixelFormat(code));
    }
}

#[test]
fn package_of_non_texture_is_no_image() {
    let body = b"NOTATEXTURE, just some bytes".to_vec();
    assert!(decode(&package(0, 0, body.len() as u32, &body)).unwrap().is_none());
    assert!(decode(&package(0, 1, body.len() as u32, &zlib(&body))).unwrap().is_none());
}

#[test]
fn empty_inflation_is_no_image() {
    let blob = package(0, 1, 0, &zlib(&[]));
    assert_eq!(unpack_package(&blob).unwrap().len(), 0);
    assert!(decode(&blob).unwrap().is_none());
}

#[test]
fn empty_uncompressed_payload_is_no_image() {
    assert!(decode(&package(0, 0, 0, &[])).unwrap().is_none());
}

#[test]
fn two_by_one_uncompressed_package() {
    let pixels = [10, 20, 30, 40, 50, 60, 70, 80];
    let body = texture(2, 1, &pixels);
    let blob = package(0, 0, body.len() as u32, &body);
    let img = decode(&blob).unwrap().unwrap();
    assert_eq!(img.width, 2);
    assert_eq!(img.height, 1);
    assert_eq!(img.data, pixels.to_vec());
}

#[test]
fn three_mip_headers_are_skipped() {
    let mips: Vec<u8> = (0u8..72).map(|i| i.wrapping_mul(37)).collect();
    let blob = texture_with(1, 1, RGBA, 3, &mips, &[9, 8, 7, 6]);
    let mut pos: usize = 100;
    skip_mip_headers(&blob, &mut pos, 3).unwrap();
    assert_eq!(pos, 100 + 3 * 24);
    let img = decode(&blob).unwrap().unwrap();
    assert_eq!(img.data, vec![9, 8, 7, 6]);
}

#[test]
fn non_positive_mip_count_skips_nothing() {
    let blob = texture_with(1, 1, RGBA, -5, &[], &[9, 8, 7, 6]);
    let mut pos: usize = 100;
    skip_mip_headers(&blob, &mut pos, -5).unwrap();
    assert_eq!(pos, 100);
    assert_eq!(decode(&blob).unwrap().unwrap().data, vec![9, 8, 7, 6]);
}

#[test]
fn truncated_mip_headers_are_rejected() {
    let blob = texture_with(1, 1, RGBA, 3, &[0u8; 60], &[]);
    assert_eq!(decode(&blob).unwrap_err(), DecodeError::TruncatedInput(Stage::MipHeader));
}

#[test]
fn rows_come_out_reversed() {
    let blob = texture(3, 2, &grid_3x2());
    let img = decode(&blob).unwrap().unwrap();
    assert_eq!((img.width, img.height), (3, 2));
    assert_eq!(img.data, grid_3x2_rows_swapped());
}

#[test]
fn round_trip_of_upside_down_grid() {
    let blob = texture(3, 2, &grid_3x2_rows_swapped());
    assert_eq!(decode(&blob).unwrap().unwrap().data, grid_3x2());
}

#[test]
fn zlib_package_decodes() {
    let body = texture(3, 2, &grid_3x2());
    let blob = package(0, 1, body.len() as u32, &zlib(&body));
    assert_eq!(unpack_package(&blob).unwrap(), body);
    let img = decode(&blob).unwrap().unwrap();
    assert_eq!(img.data, grid_3x2_rows_swapped());
}

#[test]
fn corrupt_zlib_stream_is_rejected() {
    let blob = package(0, 1, 10, &[0xde, 0xad, 0xbe, 0xef, 1, 2, 3]);
    assert_eq!(decode(&blob).unwrap_err(), DecodeError::CorruptCompressedStream);
}

#[test]
fn unsupported_version_is_rejected() {
    let body = texture(1, 1, &[1, 2, 3, 4]);
    let blob = package(1, 0, body.len() as u32, &body);
    assert_eq!(decode(&blob).unwrap_err(), DecodeError::UnsupportedVersion(1));
}

#[test]
fn truncated_package_header_is_rejected() {
    let blob = package(0, 0, 0, &[]);
    assert_eq!(
        decode(&blob[..20]).unwrap_err(),
        DecodeError::TruncatedInput(Stage::PackageHeader)
    );
}

#[test]
fn truncated_texture_header_is_rejected() {
    let blob = texture(1, 1, &[1, 2, 3, 4]);
    assert_eq!(
        decode(&blob[..60]).unwrap_err(),
        DecodeError::TruncatedInput(Stage::TextureHeader)
    );
}

#[test]
fn truncated_pixels_are_rejected() {
    let blob = texture(2, 2, &[0u8; 15]);
    assert_eq!(decode(&blob).unwrap_err(), DecodeError::TruncatedInput(Stage::PixelData));
}

#[test]
fn negative_dimensions_are_rejected() {
    let blob = texture(-1, 1, &[0u8; 4]);
    assert_eq!(decode(&blob).unwrap_err(), DecodeError::InvalidDimensions);
    assert_eq!(
        extract_pixels(&[0u8; 4], 0, 1, -1).err(),
        Some(DecodeError::InvalidDimensions)
    );
}

#[test]
fn empty_image_decodes() {
    let img = decode(&texture(0, 5, &[])).unwrap().unwrap();
    assert_eq!((img.width, img.height), (0, 5));
    assert!(img.data.is_empty());
}

#[test]
fn raw_non_texture_is_no_image() {
    assert!(decode(b"PNG and other things, long enough").unwrap().is_none());
    assert!(decode_texture(b"RTPACK\0\0").unwrap().is_none());
}

#[test]
fn extract_pixels_reads_from_position() {
    let mut data = vec![0xaa; 5];
    data.extend_from_slice(&grid_3x2());
    let img = extract_pixels(&data, 5, 3, 2).unwrap();
    assert_eq!(img.data, grid_3x2_rows_swapped());
}

#[test]
fn trailing_bytes_after_pixels_are_ignored() {
    let mut pixels = grid_3x2();
    pixels.extend_from_slice(&[1, 2, 3]);
    let img = decode(&texture(3, 2, &pixels)).unwrap().unwrap();
    assert_eq!(img.data, grid_3x2_rows_swapped());
}

#[test]
fn two_by_one_package_byte_for_byte() {
    let mut body = texture(2, 1, &[]);
    body.extend_from_slice(&[1, 2, 3, 4, 5, 6, 7, 8]);
    let n = body.len() as u32;
    let mut blob: Vec<u8> = b"RTPACK".to_vec();
    blob.extend_from_slice(&[0, 0]);
    blob.extend_from_slice(&0u32.to_le_bytes());
    blob.extend_from_slice(&n.to_le_bytes());
    blob.push(0x00);
    blob.extend_from_slice(&[0u8; 15]);
    blob.extend_from_slice(&body);
    let img = decode(&blob).unwrap().unwrap();
    assert_eq!((img.width, img.height), (2, 1));
    assert_eq!(img.data, vec![1, 2, 3, 4, 5, 6, 7, 8]);
}

#[test]
fn package_header_fields() {
    let blob = package(0, 1, 0x0102_0304, &[7, 7, 7]);
    let mut pos: usize = 0;
    let h = RtPackheader::deserialize(&blob, &mut pos).unwrap();
    assert_eq!(pos, 32);
    assert_eq!(&h.file_header.file_type_id, b"RTPACK");
    assert_eq!(h.file_header.version, 0);
    assert_eq!(h.compressed_size, 3);
    assert_eq!(h.decompressed_size, 0x0102_0304);
    assert_eq!(h.compression_type, ECompressionType::Zlib);
    let mut pos: usize = 4;
    assert_eq!(
        RtPackheader::deserialize(&blob, &mut pos).err(),
        Some(DecodeError::TruncatedInput(Stage::PackageHeader))
    );
    assert_eq!(pos, 4);
}

#[test]
fn texture_header_fields() {
    let blob = texture_with(640, 480, 0x8033, 2, &[0u8; 48], &[]);
    let mut pos: usize = 0;
    let h = RttexHeader::deserialize(&blob, &mut pos).unwrap();
    assert_eq!(pos, 100);
    assert_eq!(&h.file_header.file_type_id, b"RTTXTR");
    assert_eq!((h.width, h.height), (640, 480));
    assert_eq!((h.original_width, h.original_height), (640, 480));
    assert_eq!(h.format, ETextureFormat::GlUnsignedShort4_4_4_4);
    assert_eq!(h.b_uses_alpha, 1);
    assert_eq!(h.b_already_compressed, 0);
    assert_eq!(h.mip_map_count, 2);
}

#[test]
fn mip_header_fields() {
    let mut m = Vec::new();
    for v in [8i32, 16, 512, 1] {
        m.write_i32::<LittleEndian>(v).unwrap();
    }
    m.extend_from_slice(&[0u8; 8]);
    let mut pos: usize = 0;
    let h = RttexMipHeader::deserialize(&m, &mut pos).unwrap();
    assert_eq!(pos, 24);
    assert_eq!((h.height, h.width, h.data_size, h.mip_level), (8, 16, 512, 1));
    assert_eq!(
        RttexMipHeader::deserialize(&m, &mut pos).err(),
        Some(DecodeError::TruncatedInput(Stage::MipHeader))
    );
}

#[test]
fn enum_codes() {
    assert_eq!(ECompressionType::from_byte(0), Some(ECompressionType::Uncompressed));
    assert_eq!(ECompressionType::from_byte(1), Some(ECompressionType::Zlib));
    assert_eq!(ECompressionType::from_byte(2), None);
    assert_eq!(ETextureFormat::from_code(0x1401), Some(ETextureFormat::GlUnsignedByte));
    assert_eq!(ETextureFormat::from_code(0x8363), Some(ETextureFormat::GlUnsignedShort5_6_5));
    assert_eq!(ETextureFormat::from_code(0x8033), Some(ETextureFormat::GlUnsignedShort4_4_4_4));
    assert_eq!(ETextureFormat::from_code(20000000), Some(ETextureFormat::RtFormatEmbeddedFile));
    assert_eq!(ETextureFormat::from_code(0), None);
}
