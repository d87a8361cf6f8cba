//! The pixel payload: extracting the base level's RGBA bytes and putting
//! them in top-left-origin orientation.

use vstd::prelude::*;

use vstd::arithmetic::div_mod::{lemma_fundamental_div_mod, lemma_fundamental_div_mod_converse};

use crate::error::{DecodeError, Stage};

verus! {

/// Bytes per RGBA pixel.
pub const BYTES_PER_PIXEL: usize = 4;

/// A decoded image as mathematical values: `rgba` is a row-major grid of
/// `width` columns and `height` rows, four bytes per pixel.
pub struct PixelGrid {
    pub width: nat,
    pub height: nat,
    pub rgba: Seq<u8>,
}

/// An owned RGBA image: `data` holds `width * height` pixels, row by row.
#[derive(Debug)]
pub struct PixelBuffer {
    pub width: u32,
    pub height: u32,
    pub data: Vec<u8>,
}

impl View for PixelBuffer {
    type V = PixelGrid;

    open spec fn view(&self) -> PixelGrid {
        PixelGrid { width: self.width as nat, height: self.height as nat, rgba: self.data@ }
    }
}

impl PixelBuffer {
    /// The buffer holds exactly four bytes for each of its pixels.
    pub open spec fn wf(&self) -> bool {
        self.data@.len() == self.width as nat * self.height as nat * 4
    }
}

/// The byte at offset `c` of the pixel at column `x`, row `y`.
pub open spec fn byte_at(w: nat, x: int, y: int, c: int) -> int {
    4 * (y * w + x) + c
}

/// The grid with the order of the columns reversed in every row.
pub open spec fn mirror_columns(w: nat, px: Seq<u8>) -> Seq<u8> {
    Seq::new(
        px.len(),
        |i: int| px[byte_at(w, w - 1 - (i / 4) % (w as int), (i / 4) / (w as int), i % 4)],
    )
}

/// The grid turned half a turn: the order of both rows and columns
/// reversed, which reverses the order of the pixels.
pub open spec fn rotate_half(px: Seq<u8>) -> Seq<u8> {
    Seq::new(px.len(), |i: int| px[px.len() - 4 * (i / 4) - 4 + i % 4])
}

/// The grid with the order of the rows reversed.
pub open spec fn flip_rows(w: nat, h: nat, px: Seq<u8>) -> Seq<u8> {
    Seq::new(
        px.len(),
        |i: int| px[byte_at(w, (i / 4) % (w as int), h - 1 - (i / 4) / (w as int), i % 4)],
    )
}

/// What the pixel stage makes of the stored grid: a horizontal mirror,
/// then a half turn.
pub open spec fn oriented(w: nat, px: Seq<u8>) -> Seq<u8> {
    rotate_half(mirror_columns(w, px))
}

/// Relies on `image::imageops::flip_horizontal` over an RGBA buffer of the
/// given size: pixel (x, y) of the result is pixel (width - 1 - x, y) of the
/// source, and the result has the source's size.
#[verifier::external_body]
fn flip_horizontal_rgba(width: u32, height: u32, rgba: &[u8]) -> (r: Vec<u8>)
    requires
        rgba@.len() == width as nat * height as nat * 4,
    ensures
        r@ == mirror_columns(width as nat, rgba@),
{
    let img = image::ImageBuffer::<image::Rgba<u8>, &[u8]>::from_raw(width, height, rgba).unwrap();
    image::imageops::flip_horizontal(&img).into_raw()
}

/// Relies on `image::imageops::rotate180` over an RGBA buffer of the given
/// size: pixel (x, y) of the result is pixel (width - 1 - x, height - 1 - y)
/// of the source, and the result has the source's size.
#[verifier::external_body]
fn rotate180_rgba(width: u32, height: u32, rgba: &[u8]) -> (r: Vec<u8>)
    requires
        rgba@.len() == width as nat * height as nat * 4,
    ensures
        r@ == rotate_half(rgba@),
{
    let img = image::ImageBuffer::<image::Rgba<u8>, &[u8]>::from_raw(width, height, rgba).unwrap();
    image::imageops::rotate180(&img).into_raw()
}

/// Pixel `p` of a grid with `w` columns and `h` rows sits at column `p % w`
/// of row `p / w`.
proof fn lemma_pixel_coords(w: int, h: int, p: int)
    requires
        0 < w,
        0 <= p < w * h,
    ensures
        0 <= p / w < h,
        0 <= p % w < w,
        p == w * (p / w) + p % w,
{
    lemma_fundamental_div_mod(p, w);
    let y = p / w;
    let x = p % w;
    assert(0 <= y < h) by (nonlinear_arith)
        requires
            0 < w,
            0 <= p < w * h,
            p == w * y + x,
            0 <= x < w,
    ;
}

/// The byte at offset `c` of pixel `q` sits at `4 * q + c`.
proof fn lemma_byte_coords(q: int, c: int)
    requires
        0 <= c < 4,
    ensures
        (4 * q + c) / 4 == q,
        (4 * q + c) % 4 == c,
{
    lemma_fundamental_div_mod_converse(4 * q + c, 4, q, c);
}

/// Mirroring the columns and then turning the grid half a turn, as the pixel
/// stage does, comes to reversing the order of the rows.
pub proof fn lemma_orientation_flips_rows(w: nat, h: nat, px: Seq<u8>)
    requires
        px.len() == w * h * 4,
    ensures
        oriented(w, px) == flip_rows(w, h, px),
{
    let len = px.len() as int;
    let m = mirror_columns(w, px);
    assert forall|i: int| 0 <= i < len implies #[trigger] oriented(w, px)[i] == flip_rows(w, h, px)[i] by {
        let p = i / 4;
        let c = i % 4;
        let wi = w as int;
        let hi = h as int;
        assert(0 <= p < wi * hi);
        assert(wi > 0) by (nonlinear_arith)
            requires
                0 <= p < wi * hi,
                hi >= 0,
        ;
        lemma_pixel_coords(wi, hi, p);
        let y = p / wi;
        let x = p % wi;
        let q = wi * hi - 1 - p;
        let k = len - 4 * p - 4 + c;
        assert(k == 4 * q + c);
        lemma_byte_coords(q, c);
        assert(q == (hi - 1 - y) * wi + (wi - 1 - x)) by (nonlinear_arith)
            requires
                q == wi * hi - 1 - p,
                p == y * wi + x,
        ;
        lemma_fundamental_div_mod_converse(q, wi, hi - 1 - y, wi - 1 - x);
        assert(m[k] == px[byte_at(w, x, hi - 1 - y, c)]);
    }
    assert(oriented(w, px) =~= flip_rows(w, h, px));
}

/// Reversing the order of the rows twice gives the grid back.
pub proof fn lemma_flip_rows_involution(w: nat, h: nat, px: Seq<u8>)
    requires
        px.len() == w * h * 4,
    ensures
        flip_rows(w, h, flip_rows(w, h, px)) == px,
{
    let len = px.len() as int;
    let f = flip_rows(w, h, px);
    assert forall|i: int| 0 <= i < len implies #[trigger] flip_rows(w, h, f)[i] == px[i] by {
        let p = i / 4;
        let c = i % 4;
        let wi = w as int;
        let hi = h as int;
        assert(0 <= p < wi * hi);
        assert(wi > 0) by (nonlinear_arith)
            requires
                0 <= p < wi * hi,
                hi >= 0,
        ;
        lemma_pixel_coords(wi, hi, p);
        let y = p / wi;
        let x = p % wi;
        let q = (hi - 1 - y) * wi + x;
        assert(0 <= q < wi * hi) by (nonlinear_arith)
            requires
                0 <= y < hi,
                0 <= x < wi,
                q == (hi - 1 - y) * wi + x,
        ;
        lemma_byte_coords(q, c);
        lemma_fundamental_div_mod_converse(q, wi, hi - 1 - y, x);
        assert(f[4 * q + c] == px[byte_at(w, x, y, c)]);
    }
    assert(flip_rows(w, h, f) =~= px);
}

/// Number of payload bytes of a `width` by `height` RGBA grid.
pub open spec fn payload_len(width: int, height: int) -> int {
    width * height * 4
}

/// What the pixel stage yields for a grid declared `width` by `height` whose
/// payload starts at `p` in `s`.
pub open spec fn pixels_spec(s: Seq<u8>, p: int, width: int, height: int) -> Result<PixelGrid, DecodeError> {
    if width < 0 || height < 0 {
        Err(DecodeError::InvalidDimensions)
    } else if p + payload_len(width, height) > s.len() {
        Err(DecodeError::TruncatedInput(Stage::PixelData))
    } else {
        Ok(
            PixelGrid {
                width: width as nat,
                height: height as nat,
                rgba: oriented(width as nat, s.subrange(p, p + payload_len(width, height))),
            },
        )
    }
}

proof fn lemma_payload_fits(w: int, h: int)
    requires
        0 <= w <= i32::MAX,
        0 <= h <= i32::MAX,
    ensures
        0 <= w * h <= 0x3fff_ffff_ffff_ffff,
        w * h * 4 <= u64::MAX,
{
    assert(0 <= w * h <= 0x3fff_ffff_ffff_ffff) by (nonlinear_arith)
        requires
            0 <= w <= i32::MAX,
            0 <= h <= i32::MAX,
    ;
}

/// Reads the `width` by `height` RGBA grid that starts at `pos` and puts it in
/// top-left-origin orientation: a horizontal mirror, then a half turn.
pub fn extract_pixels(data: &[u8], pos: usize, width: i32, height: i32) -> (r: Result<PixelBuffer, DecodeError>)
    ensures
        match r {
            Ok(b) => b.wf() && pixels_spec(data@, pos as int, width as int, height as int) == Ok::<PixelGrid, DecodeError>(b@),
            Err(e) => pixels_spec(data@, pos as int, width as int, height as int) == Err::<PixelGrid, DecodeError>(e),
        },
{
    if width < 0 || height < 0 {
        return Err(DecodeError::InvalidDimensions);
    }
    proof {
        lemma_payload_fits(width as int, height as int);
    }
    let n: u64 = (width as u64) * (height as u64) * 4;
    if pos > data.len() || n > (data.len() - pos) as u64 {
        return Err(DecodeError::TruncatedInput(Stage::PixelData));
    }
    let n = n as usize;
    let w = width as u32;
    let h = height as u32;
    let stored = vstd::slice::slice_subrange(data, pos, pos + n);
    let mirrored = flip_horizontal_rgba(w, h, stored);
    let rotated = rotate180_rgba(w, h, mirrored.as_slice());
    Ok(PixelBuffer { width: w, height: h, data: rotated })
}

} // verus!
