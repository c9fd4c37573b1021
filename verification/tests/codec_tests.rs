//! Tests for color quantization and the packed-image container.

use eink_nfc::image::{
    color_distance_sq, map_to_bwr_color, map_to_bwry_color, nearest_color, ColorCode, Image,
    ImageFormatMarker,
};
use eink_nfc::tag_type::{Bwr, Bwry, ImageFormat};

#[test]
fn distance_is_squared_euclidean() {
    assert_eq!(color_distance_sq(0, 0, 0, 0, 0, 0), 0);
    assert_eq!(color_distance_sq(0, 0, 0, 255, 255, 255), 3 * 255 * 255);
    assert_eq!(color_distance_sq(10, 20, 30, 13, 24, 35), 9 + 16 + 25);
    // symmetric
    assert_eq!(
        color_distance_sq(1, 2, 3, 200, 100, 50),
        color_distance_sq(200, 100, 50, 1, 2, 3)
    );
}

#[test]
fn bwry_codes_for_reference_colors() {
    assert_eq!(map_to_bwry_color(0, 0, 0), 0);
    assert_eq!(map_to_bwry_color(255, 255, 255), 1);
    assert_eq!(map_to_bwry_color(255, 255, 0), 2);
    assert_eq!(map_to_bwry_color(255, 0, 0), 3);
}

#[test]
fn bwry_codes_for_near_colors() {
    assert_eq!(map_to_bwry_color(10, 12, 8), 0);
    assert_eq!(map_to_bwry_color(240, 250, 245), 1);
    assert_eq!(map_to_bwry_color(250, 240, 20), 2);
    assert_eq!(map_to_bwry_color(200, 30, 30), 3);
}

#[test]
fn bwry_tie_earlier_declared_color_wins() {
    // (127, 128, 0) is exactly equidistant from Black (127^2 + 128^2) and
    // Yellow ((255-127)^2 + (255-128)^2); Black is declared first and wins.
    let bd = color_distance_sq(127, 128, 0, 0, 0, 0);
    let yd = color_distance_sq(127, 128, 0, 255, 255, 0);
    assert_eq!(bd, yd);
    assert_eq!(map_to_bwry_color(127, 128, 0), 0);
    assert_eq!(nearest_color(127, 128, 0), ColorCode::Black);
}

#[test]
fn bwr_tie_white_beats_red() {
    // (255, 255, 0) is exactly equidistant from White and Red; White is
    // declared before Red and wins.
    let wd = color_distance_sq(255, 255, 0, 255, 255, 255);
    let rd = color_distance_sq(255, 255, 0, 255, 0, 0);
    assert_eq!(wd, rd);
    assert_eq!(map_to_bwr_color(255, 255, 0), (true, false));
}

#[test]
fn bwr_flags_for_reference_colors() {
    assert_eq!(map_to_bwr_color(0, 0, 0), (false, false));
    assert_eq!(map_to_bwr_color(255, 255, 255), (true, false));
    assert_eq!(map_to_bwr_color(255, 0, 0), (false, true));
    assert_eq!(map_to_bwr_color(30, 20, 25), (false, false));
    assert_eq!(map_to_bwr_color(128, 128, 128), (true, false));
    assert_eq!(map_to_bwr_color(220, 40, 30), (false, true));
}

#[test]
fn nearest_color_matches_bwry_code() {
    let samples: [(u8, u8, u8); 6] =
        [(0, 0, 0), (255, 255, 255), (255, 255, 0), (255, 0, 0), (90, 90, 90), (127, 128, 0)];
    for (r, g, b) in samples {
        let code = map_to_bwry_color(r, g, b);
        let expected = match code {
            0 => ColorCode::Black,
            1 => ColorCode::White,
            2 => ColorCode::Yellow,
            _ => ColorCode::Red,
        };
        assert_eq!(nearest_color(r, g, b), expected);
    }
}

#[test]
fn new_filled_and_from_vec() {
    let img = Image::<Bwry>::new_filled(0xAB);
    assert_eq!(img.as_slice().len(), 10_000);
    assert!(img.as_slice().iter().all(|&b| b == 0xAB));

    let ok = Image::<Bwry>::from_vec(vec![7u8; 10_000]);
    assert!(ok.is_some());
    assert_eq!(ok.unwrap().as_slice()[9999], 7);

    assert!(Image::<Bwry>::from_vec(vec![7u8; 9_999]).is_none());
    assert!(Image::<Bwry>::from_vec(Vec::new()).is_none());
}

#[test]
fn format_markers_report_their_format() {
    assert_eq!(<Bwry as ImageFormatMarker>::format(), ImageFormat::Bwry);
    assert_eq!(<Bwr as ImageFormatMarker>::format(), ImageFormat::Bwr);
}
