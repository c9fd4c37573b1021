//! Tests for the bit-level pixel accessors of the 4-color packed layout.

use eink_nfc::image::{ColorCode, Image};
use eink_nfc::tag_type::Bwry;

const ALL_COLORS: [ColorCode; 4] =
    [ColorCode::Black, ColorCode::White, ColorCode::Yellow, ColorCode::Red];

#[test]
fn set_then_get_round_trips_every_color() {
    let coords: [(usize, usize); 7] =
        [(0, 0), (1, 0), (2, 0), (3, 0), (199, 199), (100, 57), (4, 1)];
    for c in ALL_COLORS {
        for (x, y) in coords {
            let mut img = Image::<Bwry>::new_filled(0);
            img.set_pixel(x, y, c);
            assert_eq!(img.get_pixel(x, y), c);
        }
    }
}

#[test]
fn set_pixel_leaves_other_pixels_unchanged() {
    let mut img = Image::<Bwry>::new_filled(0);
    img.set_pixel(10, 5, ColorCode::Yellow);
    img.set_pixel(11, 5, ColorCode::Red);
    // neighbours in the same byte
    assert_eq!(img.get_pixel(8, 5), ColorCode::Black);
    assert_eq!(img.get_pixel(9, 5), ColorCode::Black);
    assert_eq!(img.get_pixel(10, 5), ColorCode::Yellow);
    assert_eq!(img.get_pixel(11, 5), ColorCode::Red);
    // other rows untouched
    assert_eq!(img.get_pixel(10, 4), ColorCode::Black);
    assert_eq!(img.get_pixel(10, 6), ColorCode::Black);
}

#[test]
fn pixels_pack_msb_first() {
    // Pixel x = 0 of row 0 occupies the most significant 2-bit pair of the
    // first byte, so writing Red (0b11) there makes that byte 0b1100_0000.
    let mut img = Image::<Bwry>::new_filled(0);
    img.set_pixel(0, 0, ColorCode::Red);
    assert_eq!(img.as_slice()[0], 0xC0);
    img.set_pixel(3, 0, ColorCode::White);
    assert_eq!(img.as_slice()[0], 0xC1);
    img.set_pixel(0, 0, ColorCode::Black);
    assert_eq!(img.as_slice()[0], 0x01);
    // Row 1 starts at byte 50.
    img.set_pixel(0, 1, ColorCode::Yellow);
    assert_eq!(img.as_slice()[50], 0x80);
}

#[test]
fn out_of_range_get_returns_white() {
    let img = Image::<Bwry>::new_filled(0);
    assert_eq!(img.get_pixel(200, 0), ColorCode::White);
    assert_eq!(img.get_pixel(0, 200), ColorCode::White);
    assert_eq!(img.get_pixel(usize::MAX, usize::MAX), ColorCode::White);
}

#[test]
fn out_of_range_set_is_a_no_op() {
    let mut img = Image::<Bwry>::new_filled(0x55);
    img.set_pixel(200, 0, ColorCode::Red);
    img.set_pixel(0, 200, ColorCode::Red);
    img.set_pixel(usize::MAX, 3, ColorCode::Red);
    assert!(img.as_slice().iter().all(|&b| b == 0x55));
}
