//! Bitmap decoding: an uncompressed 24-bit bitmap file becomes its pixel bytes, three per
//! pixel with the row padding of the file removed, and its dimensions.
use vstd::prelude::*;
use vstd::arithmetic::div_mod::{lemma_fundamental_div_mod, lemma_fundamental_div_mod_converse};
use crate::error::DecodeError;
use embedded_graphics::pixelcolor::Rgb888;

verus! {

/// Bytes per pixel of the 24-bit RGB payload this viewer uploads.
pub const BYTES_PER_PIXEL: u64 = 3;

/// Bits per pixel of that payload.
pub const BITS_PER_PIXEL: u16 = 24;

/// Length of the file header plus the smallest information header.
pub const HEADER_LEN: usize = 54;

/// Unsigned little-endian 16-bit value stored at `i`.
pub open spec fn le_u16_at(s: Seq<u8>, i: int) -> int {
    s[i] + 256 * s[i + 1]
}

/// Unsigned little-endian 32-bit value stored at `i`.
pub open spec fn le_u32_at(s: Seq<u8>, i: int) -> int {
    s[i] + 256 * s[i + 1] + 65536 * s[i + 2] + 16777216 * s[i + 3]
}

/// Magnitude of a 32-bit two's-complement value given by its unsigned reading `u`.
pub open spec fn magnitude_i32(u: int) -> int {
    if u < 0x8000_0000 {
        u
    } else {
        0x1_0000_0000 - u
    }
}

/// Length of one stored pixel row: rows are padded to a multiple of four bytes.
pub open spec fn row_bytes(width: int, bits_per_pixel: int) -> int {
    (width * bits_per_pixel + 31) / 32 * 4
}

/// Offset of the pixel payload, from the file header.
pub open spec fn payload_start(s: Seq<u8>) -> int {
    le_u32_at(s, 10)
}

/// Header fields the file declares (meaningful once the file holds `HEADER_LEN` bytes).
pub open spec fn declared_width(s: Seq<u8>) -> int {
    le_u32_at(s, 18)
}

pub open spec fn declared_height(s: Seq<u8>) -> int {
    magnitude_i32(le_u32_at(s, 22))
}

pub open spec fn declared_bits(s: Seq<u8>) -> int {
    le_u16_at(s, 28)
}

pub open spec fn declared_compression(s: Seq<u8>) -> int {
    le_u32_at(s, 30)
}

pub open spec fn declared_palette(s: Seq<u8>) -> int {
    le_u32_at(s, 46)
}

/// The row length and the colour-table length the parser derives from the header both fit
/// in 32 bits, so its size arithmetic is exact on every target.
pub open spec fn header_fits_u32(s: Seq<u8>) -> bool {
    s.len() >= HEADER_LEN ==> {
        &&& declared_width(s) * declared_bits(s) + 31 <= 0xffff_ffff
        &&& declared_palette(s) * 4 <= 0xffff_ffff
    }
}

/// A well-formed uncompressed 24-bit bitmap with a 40-byte information header, no colour
/// table, positive sides within `i32`, and the whole padded payload present.
pub open spec fn bmp24_ok(s: Seq<u8>) -> bool {
    &&& s.len() >= HEADER_LEN
    &&& s[0] == 0x42 && s[1] == 0x4D
    &&& le_u32_at(s, 14) == 40
    &&& declared_bits(s) == BITS_PER_PIXEL
    &&& declared_compression(s) == 0
    &&& declared_palette(s) == 0
    &&& 0 < declared_width(s) < 0x8000_0000
    &&& 1 <= declared_height(s) <= i32::MAX
    &&& payload_start(s) + row_bytes(declared_width(s), BITS_PER_PIXEL as int) * declared_height(s)
        <= s.len()
}

/// Relies on `tinybmp::Bmp::from_slice` (which runs `RawBmp::from_slice`) and on
/// `RawBmp::image_data` / `RawBmp::header`. A file it accepts starts with `BM` and has an
/// information header of at least 40 bytes; the width is the positive 32-bit value at byte
/// 18, the height the magnitude of the nonzero one at byte 22, the bit depth the value at
/// byte 28, and the pixel data is the slice of the input that starts at the offset stored
/// at byte 10 and holds one padded row per image row. It accepts every file of `bmp24_ok`.
/// Its row and colour-table sizes are computed in `usize`; `header_fits_u32` keeps them
/// exact where `usize` has 32 bits.
#[verifier::external_body]
fn parse_bitmap(bytes: &[u8]) -> (r: Option<(Vec<u8>, u32, u32, u16)>)
    requires
        header_fits_u32(bytes@),
    ensures
        r matches Some((pixels, w, h, bits)) ==> {
            &&& bytes@.len() >= HEADER_LEN
            &&& bytes@[0] == 0x42 && bytes@[1] == 0x4D
            &&& w as int == declared_width(bytes@)
            &&& 0 < w < 0x8000_0000
            &&& h as int == declared_height(bytes@)
            &&& 0 < h
            &&& bits as int == declared_bits(bytes@)
            &&& payload_start(bytes@) + pixels@.len() <= bytes@.len()
            &&& pixels@ == bytes@.subrange(
                payload_start(bytes@),
                payload_start(bytes@) + pixels@.len(),
            )
            &&& pixels@.len() == row_bytes(w as int, bits as int) * h
        },
        bmp24_ok(bytes@) ==> r is Some,
{
    match tinybmp::Bmp::<Rgb888>::from_slice(bytes) {
        Ok(bmp) => {
            let raw = bmp.as_raw();
            let header = raw.header();
            let size = header.image_size;
            Some((raw.image_data().to_vec(), size.width, size.height, header.bpp.bits()))
        },
        Err(_) => None,
    }
}

/// Decoded texture: `pixels` holds `width * height` three-byte pixels, row after row.
#[derive(Clone, Debug, PartialEq, Eq)]
pub struct Image {
    pub pixels: Vec<u8>,
    pub width: i32,
    pub height: i32,
}

/// The pixel bytes of a stored 24-bit payload of `h` rows of `w` pixels: byte `k` of image
/// row `r` is byte `k` of the `r`-th padded row, and the padding is dropped.
pub open spec fn unpadded(raw: Seq<u8>, w: int, h: int) -> Seq<u8> {
    Seq::new(
        (3 * w * h) as nat,
        |i: int| raw[(i / (3 * w)) * row_bytes(w, BITS_PER_PIXEL as int) + i % (3 * w)],
    )
}

/// Whether a parser's output is a usable texture: 24 bits per pixel, both sides positive and
/// within `i32`, and one padded row per image row.
pub open spec fn bitmap_fits(raw: Seq<u8>, w: int, h: int, bits: int) -> bool {
    &&& bits == BITS_PER_PIXEL
    &&& 0 < w <= i32::MAX
    &&& 0 < h <= i32::MAX
    &&& raw.len() == row_bytes(w, BITS_PER_PIXEL as int) * h
}

proof fn lemma_row_holds_pixels(w: int)
    requires
        w > 0,
    ensures
        3 * w <= row_bytes(w, BITS_PER_PIXEL as int),
{
    lemma_fundamental_div_mod(24 * w + 31, 32);
    assert(3 * w <= (24 * w + 31) / 32 * 4) by (nonlinear_arith)
        requires
            24 * w + 31 == 32 * ((24 * w + 31) / 32) + (24 * w + 31) % 32,
            0 <= (24 * w + 31) % 32 < 32,
    ;
}

/// Copies the pixel bytes of each padded row, dropping the padding.
fn strip_padding(raw: &Vec<u8>, w: u32, h: u32, stride: usize) -> (r: Vec<u8>)
    requires
        0 < w <= i32::MAX,
        0 < h <= i32::MAX,
        stride as int == row_bytes(w as int, BITS_PER_PIXEL as int),
        raw@.len() == stride * h,
    ensures
        r@ == unpadded(raw@, w as int, h as int),
{
    proof {
        lemma_row_holds_pixels(w as int);
    }
    let width_bytes: usize = 3 * w as usize;
    let total: usize = raw.len();
    let mut out: Vec<u8> = Vec::new();
    let mut row: usize = 0;
    while row < h as usize
        invariant
            0 < w <= i32::MAX,
            width_bytes == 3 * w,
            width_bytes <= stride,
            raw@.len() == stride * h,
            total == raw@.len(),
            stride as int == row_bytes(w as int, BITS_PER_PIXEL as int),
            row <= h,
            out@.len() == row * width_bytes,
            forall|j: int|
                0 <= j < out@.len() ==> #[trigger] out@[j] == raw@[(j / (3 * w)) * stride + j % (3
                    * w)],
        decreases h - row,
    {
        assert(row * stride + stride <= stride * h) by (nonlinear_arith)
            requires
                row < h,
                0 <= row,
                0 <= stride,
        ;
        let base: usize = row * stride;
        let mut k: usize = 0;
        while k < width_bytes
            invariant
                0 < w <= i32::MAX,
                width_bytes == 3 * w,
                width_bytes <= stride,
                raw@.len() == stride * h,
                total == raw@.len(),
                row < h,
                base == row * stride,
                base + stride <= raw@.len(),
                k <= width_bytes,
                out@.len() == row * width_bytes + k,
                forall|j: int|
                    0 <= j < out@.len() ==> #[trigger] out@[j] == raw@[(j / (3 * w)) * stride + j
                        % (3 * w)],
            decreases width_bytes - k,
        {
            let ghost j: int = (row * width_bytes + k) as int;
            proof {
                lemma_fundamental_div_mod_converse(j, 3 * w, row as int, k as int);
            }
            out.push(raw[base + k]);
            k += 1;
        }
        assert((row + 1) * width_bytes == row * width_bytes + width_bytes) by (nonlinear_arith);
        row += 1;
    }
    assert(h * (3 * w) == 3 * w * h) by (nonlinear_arith);
    assert(out@ =~= unpadded(raw@, w as int, h as int));
    out
}

/// Validates what the bitmap parser produced (`None` when it refused the bytes) and drops
/// the row padding.
pub fn check_bitmap(parsed: Option<(Vec<u8>, u32, u32, u16)>) -> (r: Result<Image, DecodeError>)
    ensures
        match parsed {
            None => r is Err && r->Err_0 == DecodeError::BadFormat,
            Some((raw, w, h, bits)) => if bitmap_fits(raw@, w as int, h as int, bits as int) {
                &&& r is Ok
                &&& r->Ok_0.pixels@ == unpadded(raw@, w as int, h as int)
                &&& r->Ok_0.pixels@.len() == w * h * BYTES_PER_PIXEL
                &&& r->Ok_0.width as int == w as int
                &&& r->Ok_0.height as int == h as int
            } else {
                r is Err && r->Err_0 == DecodeError::BadFormat
            },
        },
{
    match parsed {
        None => Err(DecodeError::BadFormat),
        Some((raw, w, h, bits)) => {
            if bits != BITS_PER_PIXEL || w == 0 || h == 0 || w > i32::MAX as u32 || h
                > i32::MAX as u32 {
                return Err(DecodeError::BadFormat);
            }
            let stride: u64 = (24 * w as u64 + 31) / 32 * 4;
            assert(stride * h <= 0x3_0000_0000 * 0x8000_0000) by (nonlinear_arith)
                requires
                    stride <= 0x3_0000_0000,
                    h <= 0x8000_0000,
            ;
            if raw.len() as u128 != stride as u128 * h as u128 {
                return Err(DecodeError::BadFormat);
            }
            assert(stride <= stride * h) by (nonlinear_arith)
                requires
                    h >= 1,
            ;
            let pixels = strip_padding(&raw, w, h, stride as usize);
            assert(3 * w * h == w * h * 3) by (nonlinear_arith);
            Ok(Image { pixels, width: w as i32, height: h as i32 })
        },
    }
}

fn read_le_u16(bytes: &[u8], i: usize) -> (r: u64)
    requires
        i + 2 <= bytes@.len(),
    ensures
        r as int == le_u16_at(bytes@, i as int),
{
    bytes[i] as u64 + 256 * bytes[i + 1] as u64
}

fn read_le_u32(bytes: &[u8], i: usize) -> (r: u64)
    requires
        i + 4 <= bytes@.len(),
    ensures
        r as int == le_u32_at(bytes@, i as int),
{
    bytes[i] as u64 + 256 * bytes[i + 1] as u64 + 65536 * bytes[i + 2] as u64 + 16777216
        * bytes[i + 3] as u64
}

/// Decodes an uncompressed 24-bit bitmap file. Every `bmp24_ok` file whose row length fits in
/// 32 bits decodes; any failure is `BadFormat`. A decoded image has the sides the header
/// declares, and its pixels are the stored rows after the payload offset with their padding
/// removed, exactly `width * height * 3` bytes.
pub fn decode_image(bytes: &[u8]) -> (r: Result<Image, DecodeError>)
    ensures
        r is Err ==> r->Err_0 == DecodeError::BadFormat,
        bmp24_ok(bytes@) && header_fits_u32(bytes@) ==> r is Ok,
        r matches Ok(img) ==> {
            let s = bytes@;
            let (w, h) = (img.width as int, img.height as int);
            &&& s.len() >= HEADER_LEN
            &&& s[0] == 0x42 && s[1] == 0x4D
            &&& declared_bits(s) == BITS_PER_PIXEL
            &&& declared_compression(s) == 0
            &&& w == declared_width(s) && 0 < w
            &&& h == declared_height(s) && 0 < h
            &&& img.pixels@.len() == w * h * BYTES_PER_PIXEL
            &&& payload_start(s) + row_bytes(w, BITS_PER_PIXEL as int) * h <= s.len()
            &&& img.pixels@ == unpadded(
                s.subrange(
                    payload_start(s),
                    payload_start(s) + row_bytes(w, BITS_PER_PIXEL as int) * h,
                ),
                w,
                h,
            )
        },
{
    if bytes.len() >= HEADER_LEN {
        let w = read_le_u32(bytes, 18);
        let bits = read_le_u16(bytes, 28);
        let compression = read_le_u32(bytes, 30);
        let palette = read_le_u32(bytes, 46);
        assert(w * bits <= 0xffff_ffff * 0xffff) by (nonlinear_arith)
            requires
                w <= 0xffff_ffff,
                bits <= 0xffff,
        ;
        if compression != 0 || w * bits + 31 > 0xffff_ffff || palette * 4 > 0xffff_ffff {
            return Err(DecodeError::BadFormat);
        }
    }
    check_bitmap(parse_bitmap(bytes))
}

} // verus!
