//! Tests for bitmap decoding: header validation, palette mapping, row
//! mirroring, and the two packed plane layouts.

use eink_nfc::image::{load_bmp, load_bmp_bwr, load_bmp_bwry, AnyImage, ColorCode, ImageError};
use eink_nfc::tag_type::ImageFormat;

/// Builds a BMP byte stream: 14-byte file header, 40-byte info header,
/// 256-entry BGRA palette, then `height.abs()` rows of `width` palette
/// indices from `pixel(x, stored_row)` (width 200 needs no row padding).
fn make_bmp(
    width: i32,
    height: i32,
    bpp: u16,
    palette: &[(u8, u8, u8)],
    pixel: impl Fn(usize, usize) -> u8,
) -> Vec<u8> {
    let mut v = Vec::new();
    // file header
    v.push(b'B');
    v.push(b'M');
    v.extend_from_slice(&[0u8; 12]);
    // info header
    let mut info = [0u8; 40];
    info[0] = 40;
    info[4..8].copy_from_slice(&width.to_le_bytes());
    info[8..12].copy_from_slice(&height.to_le_bytes());
    info[12..14].copy_from_slice(&1u16.to_le_bytes());
    info[14..16].copy_from_slice(&bpp.to_le_bytes());
    v.extend_from_slice(&info);
    // palette: B, G, R, A
    for i in 0..256 {
        let (r, g, b) = palette.get(i).copied().unwrap_or((0, 0, 0));
        v.push(b);
        v.push(g);
        v.push(r);
        v.push(0);
    }
    // pixel rows in stored order
    let rows = height.unsigned_abs() as usize;
    for row in 0..rows {
        for x in 0..width.max(0) as usize {
            v.push(pixel(x, row));
        }
    }
    v
}

const PAL_BWRY: [(u8, u8, u8); 4] = [(0, 0, 0), (255, 255, 255), (255, 255, 0), (255, 0, 0)];

#[test]
fn all_black_bitmap_decodes_to_all_zero_plane() {
    // Palette index 0 is black; all pixels are index 0; the 4-color decode
    // must be 10,000 bytes, entirely the all-black code 0b00.
    let data = make_bmp(200, 200, 8, &PAL_BWRY, |_, _| 0);
    let img = load_bmp_bwry(&data).unwrap();
    assert_eq!(img.as_slice().len(), 10_000);
    assert!(img.as_slice().iter().all(|&b| b == 0));
}

#[test]
fn palette_colors_reach_the_packed_plane() {
    // Stored row 0 (bottom-up: output row 199) is white, yellow, red, black
    // repeated; everything else black.
    let data = make_bmp(200, 200, 8, &PAL_BWRY, |x, row| {
        if row == 0 {
            [1u8, 2, 3, 0][x % 4]
        } else {
            0
        }
    });
    let img = load_bmp_bwry(&data).unwrap();
    // Codes 1,2,3,0 pack MSB-first into 0b01_10_11_00.
    assert_eq!(img.as_slice()[199 * 50], 0b01_10_11_00);
    assert_eq!(img.get_pixel(0, 199), ColorCode::White);
    assert_eq!(img.get_pixel(1, 199), ColorCode::Yellow);
    assert_eq!(img.get_pixel(2, 199), ColorCode::Red);
    assert_eq!(img.get_pixel(3, 199), ColorCode::Black);
    assert_eq!(img.get_pixel(0, 0), ColorCode::Black);
}

#[test]
fn bottom_up_rows_are_mirrored() {
    let data = make_bmp(200, 200, 8, &PAL_BWRY, |_, row| if row == 0 { 1 } else { 0 });
    let img = load_bmp_bwry(&data).unwrap();
    assert_eq!(img.get_pixel(0, 199), ColorCode::White);
    assert_eq!(img.get_pixel(0, 0), ColorCode::Black);
}

#[test]
fn top_down_rows_are_kept() {
    // Negative height marks top-down storage: stored row 0 is output row 0.
    let data = make_bmp(200, -200, 8, &PAL_BWRY, |_, row| if row == 0 { 1 } else { 0 });
    let img = load_bmp_bwry(&data).unwrap();
    assert_eq!(img.get_pixel(0, 0), ColorCode::White);
    assert_eq!(img.get_pixel(0, 199), ColorCode::Black);
}

#[test]
fn wrong_width_is_invalid_size() {
    let data = make_bmp(199, 200, 8, &PAL_BWRY, |_, _| 0);
    assert_eq!(load_bmp_bwry(&data).unwrap_err(), ImageError::InvalidSize);
    assert_eq!(load_bmp_bwr(&data).unwrap_err(), ImageError::InvalidSize);
}

#[test]
fn wrong_height_is_invalid_size() {
    let data = make_bmp(200, 201, 8, &PAL_BWRY, |_, _| 0);
    assert_eq!(load_bmp_bwry(&data).unwrap_err(), ImageError::InvalidSize);
    let data = make_bmp(200, -201, 8, &PAL_BWRY, |_, _| 0);
    assert_eq!(load_bmp_bwry(&data).unwrap_err(), ImageError::InvalidSize);
}

#[test]
fn wrong_bit_depth_is_invalid_format() {
    let data = make_bmp(200, 200, 4, &PAL_BWRY, |_, _| 0);
    assert_eq!(load_bmp_bwry(&data).unwrap_err(), ImageError::InvalidFormat);
    let data = make_bmp(200, 200, 24, &PAL_BWRY, |_, _| 0);
    assert_eq!(load_bmp_bwr(&data).unwrap_err(), ImageError::InvalidFormat);
}

#[test]
fn bad_magic_is_invalid_format() {
    let mut data = make_bmp(200, 200, 8, &PAL_BWRY, |_, _| 0);
    data[0] = b'X';
    assert_eq!(load_bmp_bwry(&data).unwrap_err(), ImageError::InvalidFormat);
}

#[test]
fn truncated_input_is_read_failed() {
    assert_eq!(load_bmp_bwry(&Vec::new()).unwrap_err(), ImageError::ReadFailed);
    assert_eq!(load_bmp_bwry(&vec![b'B', b'M']).unwrap_err(), ImageError::ReadFailed);
    // valid headers, palette cut short
    let full = make_bmp(200, 200, 8, &PAL_BWRY, |_, _| 0);
    let cut = full[..60].to_vec();
    assert_eq!(load_bmp_bwry(&cut).unwrap_err(), ImageError::ReadFailed);
    // valid headers and palette, rows cut short
    let cut = full[..1078 + 150].to_vec();
    assert_eq!(load_bmp_bwry(&cut).unwrap_err(), ImageError::ReadFailed);
}

#[test]
fn decoding_is_deterministic() {
    let data = make_bmp(200, 200, 8, &PAL_BWRY, |x, row| ((x + row) % 4) as u8);
    let a = load_bmp_bwry(&data).unwrap();
    let b = load_bmp_bwry(&data).unwrap();
    assert_eq!(a.as_slice(), b.as_slice());
    let c = load_bmp_bwr(&data).unwrap();
    let d = load_bmp_bwr(&data).unwrap();
    assert_eq!(c.as_slice(), d.as_slice());
}

const PAL_BWR: [(u8, u8, u8); 3] = [(0, 0, 0), (255, 255, 255), (255, 0, 0)];

#[test]
fn bwr_planes_encode_white_and_red_separately() {
    // All white: monochrome plane all ones, red plane all zeros.
    let data = make_bmp(200, 200, 8, &PAL_BWR, |_, _| 1);
    let img = load_bmp_bwr(&data).unwrap();
    let bytes = img.as_slice();
    assert!(bytes[..5000].iter().all(|&b| b == 0xFF));
    assert!(bytes[5000..].iter().all(|&b| b == 0x00));

    // All red: monochrome plane all zeros, red plane all ones.
    let data = make_bmp(200, 200, 8, &PAL_BWR, |_, _| 2);
    let img = load_bmp_bwr(&data).unwrap();
    let bytes = img.as_slice();
    assert!(bytes[..5000].iter().all(|&b| b == 0x00));
    assert!(bytes[5000..].iter().all(|&b| b == 0xFF));
}

#[test]
fn bwr_bits_pack_msb_first() {
    // Stored row 0 (output row 199): first pixel white, next red, rest black.
    let data = make_bmp(200, 200, 8, &PAL_BWR, |x, row| {
        if row == 0 && x == 0 {
            1
        } else if row == 0 && x == 1 {
            2
        } else {
            0
        }
    });
    let img = load_bmp_bwr(&data).unwrap();
    let bytes = img.as_slice();
    assert_eq!(bytes[199 * 25], 0b1000_0000);
    assert_eq!(bytes[5000 + 199 * 25], 0b0100_0000);
    assert_eq!(bytes[0], 0);
    assert_eq!(bytes[5000], 0);
}

#[test]
fn load_bmp_dispatches_on_format() {
    let data = make_bmp(200, 200, 8, &PAL_BWRY, |_, _| 0);
    match load_bmp(&data, ImageFormat::Bwry).unwrap() {
        AnyImage::Bwry(img) => assert_eq!(img.as_slice().len(), 10_000),
        AnyImage::Bwr(_) => panic!("wrong variant"),
    }
    match load_bmp(&data, ImageFormat::Bwr).unwrap() {
        AnyImage::Bwr(img) => assert_eq!(img.as_slice().len(), 10_000),
        AnyImage::Bwry(_) => panic!("wrong variant"),
    }
    let bad = make_bmp(100, 200, 8, &PAL_BWRY, |_, _| 0);
    assert_eq!(load_bmp(&bad, ImageFormat::Bwry).unwrap_err(), ImageError::InvalidSize);
}
