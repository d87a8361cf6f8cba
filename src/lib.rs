//! Decoder for RTPACK / RTTEX texture containers into RGBA pixel buffers.

pub mod bytes;
pub mod decode;
pub mod error;
pub mod header;
pub mod layout;
pub mod package;
pub mod pixels;
pub mod texture;

pub use bytes::{is_a_packed_file, is_a_txtr_file, read_i32_le, read_u32_le};
pub use decode::decode;
pub use error::{DecodeError, Stage, UnknownValue};
pub use header::{
    ECompressionType, ETextureFormat, RtFileHeader, RtPackheader, RttexHeader, RttexMipHeader,
};
pub use package::unpack_package;
pub use pixels::{extract_pixels, PixelBuffer};
pub use texture::{decode_texture, skip_mip_headers};
