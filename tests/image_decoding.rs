use rocket_vis::error::DecodeError;
use rocket_vis::image::{check_bitmap, decode_image};

/// A 24-bit bitmap with a 40-byte information header; `rows` are stored as given.
fn bitmap(width: i32, height: i32, payload: &[u8]) -> Vec<u8> {
    let start: u32 = 54;
    let mut b = Vec::new();
    b.extend_from_slice(b"BM");
    b.extend_from_slice(&(start + payload.len() as u32).to_le_bytes());
    b.extend_from_slice(&0u32.to_le_bytes());
    b.extend_from_slice(&start.to_le_bytes());
    b.extend_from_slice(&40u32.to_le_bytes());
    b.extend_from_slice(&width.to_le_bytes());
    b.extend_from_slice(&height.to_le_bytes());
    b.extend_from_slice(&1u16.to_le_bytes());
    b.extend_from_slice(&24u16.to_le_bytes());
    b.extend_from_slice(&0u32.to_le_bytes());
    b.extend_from_slice(&(payload.len() as u32).to_le_bytes());
    b.extend_from_slice(&[0u8; 16]);
    b.extend_from_slice(payload);
    b
}

#[test]
fn synthetic_bitmap_round_trips() {
    let (w, h) = (4, 2);
    let pattern: Vec<u8> = (0..(w * h * 3) as u32).map(|i| (i * 7 % 251) as u8).collect();
    let img = decode_image(&bitmap(w, h, &pattern)).unwrap();
    assert_eq!(img.width, 4);
    assert_eq!(img.height, 2);
    assert_eq!(img.pixels.len(), 4 * 2 * 3);
    assert_eq!(img.pixels, pattern);
}

#[test]
fn top_down_bitmap_reports_positive_height() {
    let pattern: Vec<u8> = (0..24u8).collect();
    let img = decode_image(&bitmap(4, -2, &pattern)).unwrap();
    assert_eq!((img.width, img.height), (4, 2));
    assert_eq!(img.pixels, pattern);
}

#[test]
fn reference_four_by_two_decodes() {
    let payload: Vec<u8> = (0..24u8).collect();
    let img = decode_image(&bitmap(4, 2, &payload)).unwrap();
    assert_eq!(img, rocket_vis::image::Image { pixels: payload, width: 4, height: 2 });
}

#[test]
fn one_pixel_row_padding_is_dropped() {
    let img = decode_image(&bitmap(1, 1, &[10, 20, 30, 0])).unwrap();
    assert_eq!((img.pixels, img.width, img.height), (vec![10, 20, 30], 1, 1));
}

#[test]
fn padded_rows_keep_only_pixel_bytes() {
    // Three pixels take nine bytes, stored padded to twelve per row.
    let mut payload = Vec::new();
    for row in 0..2u8 {
        for k in 0..9u8 {
            payload.push(row * 100 + k);
        }
        payload.extend_from_slice(&[0xEE, 0xEE, 0xEE]);
    }
    let img = decode_image(&bitmap(3, 2, &payload)).unwrap();
    assert_eq!((img.width, img.height), (3, 2));
    let expected: Vec<u8> = (0..2u8).flat_map(|r| (0..9u8).map(move |k| r * 100 + k)).collect();
    assert_eq!(img.pixels, expected);
    assert_eq!(img.pixels.len(), 3 * 2 * 3);
}

#[test]
fn wrong_signature_is_bad_format() {
    let mut b = bitmap(4, 1, &[0u8; 12]);
    b[0] = b'X';
    assert_eq!(decode_image(&b), Err(DecodeError::BadFormat));
}

#[test]
fn other_bit_depth_is_bad_format() {
    let mut b = bitmap(4, 1, &[0u8; 16]);
    b[28] = 32;
    assert_eq!(decode_image(&b), Err(DecodeError::BadFormat));
}

#[test]
fn compressed_bitmap_is_bad_format() {
    let mut b = bitmap(4, 1, &[0u8; 12]);
    b[30] = 3;
    assert_eq!(decode_image(&b), Err(DecodeError::BadFormat));
}

#[test]
fn oversized_row_is_bad_format() {
    // A width whose row length does not fit in 32 bits is refused before parsing.
    let mut b = bitmap(4, 1, &[0u8; 12]);
    b[18..22].copy_from_slice(&0x1000_0000i32.to_le_bytes());
    assert_eq!(decode_image(&b), Err(DecodeError::BadFormat));
}

#[test]
fn truncated_payload_is_bad_format() {
    let mut b = bitmap(4, 2, &[0u8; 24]);
    b.truncate(b.len() - 1);
    assert_eq!(decode_image(&b), Err(DecodeError::BadFormat));
}

#[test]
fn empty_input_is_bad_format() {
    assert_eq!(decode_image(&[]), Err(DecodeError::BadFormat));
}

#[test]
fn check_bitmap_strips_padding() {
    let img = check_bitmap(Some((vec![1, 2, 3, 9, 4, 5, 6, 9], 1, 2, 24))).unwrap();
    assert_eq!((img.width, img.height, img.pixels), (1, 2, vec![1, 2, 3, 4, 5, 6]));
    let img = check_bitmap(Some((vec![9u8; 12], 4, 1, 24))).unwrap();
    assert_eq!(img.pixels, vec![9u8; 12]);
}

#[test]
fn check_bitmap_rejects_bad_parses() {
    assert_eq!(check_bitmap(None), Err(DecodeError::BadFormat));
    assert_eq!(check_bitmap(Some((vec![0u8; 7], 1, 2, 24))), Err(DecodeError::BadFormat));
    assert_eq!(check_bitmap(Some((vec![0u8; 8], 2, 1, 32))), Err(DecodeError::BadFormat));
    assert_eq!(check_bitmap(Some((vec![], 0, 1, 24))), Err(DecodeError::BadFormat));
    assert_eq!(check_bitmap(Some((vec![], 1, 0, 24))), Err(DecodeError::BadFormat));
    assert_eq!(check_bitmap(Some((vec![], 1u32 << 31, 1, 24))), Err(DecodeError::BadFormat));
}
