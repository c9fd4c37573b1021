//! Tests for the compact and raw pre-packed input formats.

use eink_nfc::image::{decode_compact, load_raw, ImageError};
use eink_nfc::tag_type::{Bwr, Bwry};

/// Builds a compact input: 4-byte magic, LE16 width, LE16 height, payload.
fn make_compact(width: u16, height: u16, payload: &[u8]) -> Vec<u8> {
    let mut v = vec![0x45, 0x49, 0x4E, 0x4B];
    v.extend_from_slice(&width.to_le_bytes());
    v.extend_from_slice(&height.to_le_bytes());
    v.extend_from_slice(payload);
    v
}

#[test]
fn compact_round_trips_the_payload() {
    let payload: Vec<u8> = (0..10_000u32).map(|i| (i % 251) as u8).collect();
    let data = make_compact(200, 200, &payload);
    let img = decode_compact::<Bwry>(&data).unwrap();
    assert_eq!(img.as_slice(), &payload);
    let img = decode_compact::<Bwr>(&data).unwrap();
    assert_eq!(img.as_slice(), &payload);
}

#[test]
fn compact_wrong_width_is_invalid_size_without_reading_payload() {
    // Correct magic but width 199: InvalidSize, decided from the 8-byte
    // header alone — no payload is present at all.
    let data = make_compact(199, 200, &[]);
    assert_eq!(data.len(), 8);
    assert_eq!(decode_compact::<Bwry>(&data).unwrap_err(), ImageError::InvalidSize);
}

#[test]
fn compact_wrong_height_is_invalid_size() {
    let data = make_compact(200, 100, &[0u8; 10_000]);
    assert_eq!(decode_compact::<Bwry>(&data).unwrap_err(), ImageError::InvalidSize);
}

#[test]
fn compact_bad_magic_is_invalid_format() {
    let mut data = make_compact(200, 200, &[0u8; 10_000]);
    data[3] = b'!';
    assert_eq!(decode_compact::<Bwry>(&data).unwrap_err(), ImageError::InvalidFormat);
}

#[test]
fn compact_truncated_is_read_failed() {
    assert_eq!(decode_compact::<Bwry>(&Vec::new()).unwrap_err(), ImageError::ReadFailed);
    assert_eq!(
        decode_compact::<Bwry>(&vec![0x45, 0x49, 0x4E]).unwrap_err(),
        ImageError::ReadFailed
    );
    let data = make_compact(200, 200, &[0u8; 9_999]);
    assert_eq!(decode_compact::<Bwry>(&data).unwrap_err(), ImageError::ReadFailed);
}

#[test]
fn raw_requires_the_exact_packed_size() {
    let payload: Vec<u8> = (0..10_000u32).map(|i| (i % 13) as u8).collect();
    let img = load_raw::<Bwr>(&payload).unwrap();
    assert_eq!(img.as_slice(), &payload);
    assert_eq!(load_raw::<Bwr>(&vec![0u8; 9_999]).unwrap_err(), ImageError::InvalidSize);
    assert_eq!(load_raw::<Bwr>(&vec![0u8; 10_001]).unwrap_err(), ImageError::InvalidSize);
    assert_eq!(load_raw::<Bwr>(&Vec::new()).unwrap_err(), ImageError::InvalidSize);
}
