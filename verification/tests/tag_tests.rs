//! Tests for the tag model registry and its menu ordering.

use eink_nfc::tag_type::{ImageFormat, Protocol, TagType};

#[test]
fn registry_order_is_part_of_the_contract() {
    let y = TagType::get(0).unwrap();
    assert_eq!(y.name, "1.54inch e-Paper Y");
    assert_eq!(y.width, 200);
    assert_eq!(y.height, 200);
    assert_eq!(y.image_format, ImageFormat::Bwry);
    assert_eq!(y.protocol, Protocol::IsodepBwry);

    let b = TagType::get(1).unwrap();
    assert_eq!(b.name, "1.54inch e-Paper B");
    assert_eq!(b.width, 200);
    assert_eq!(b.height, 200);
    assert_eq!(b.image_format, ImageFormat::Bwr);
    assert_eq!(b.protocol, Protocol::IsodepGenb);
}

#[test]
fn out_of_range_index_is_none() {
    assert!(TagType::get(2).is_none());
    assert!(TagType::get(100).is_none());
    assert!(TagType::get(usize::MAX).is_none());
}
