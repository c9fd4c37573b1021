//! Tests for the APDU command builders and response interpretation.

use eink_nfc::protocol_common::{
    build_gpio_0, build_gpio_1, build_image_packet, build_init, build_read_status,
    build_select_register, build_write_data, response_status_ok,
};

#[test]
fn fixed_commands_have_exact_bytes() {
    assert_eq!(
        build_init(),
        vec![0x74, 0xB1, 0x00, 0x00, 0x08, 0x00, 0x11, 0x22, 0x33, 0x44, 0x55, 0x66, 0x77]
    );
    assert_eq!(build_gpio_0(), vec![0x74, 0x97, 0x00, 0x08, 0x00]);
    assert_eq!(build_gpio_1(), vec![0x74, 0x97, 0x01, 0x08, 0x00]);
    assert_eq!(build_read_status(), vec![0x74, 0x9B, 0x00, 0x0F, 0x01]);
}

#[test]
fn select_register_embeds_the_register_id() {
    assert_eq!(build_select_register(0xE0), vec![0x74, 0x99, 0x00, 0x0D, 0x01, 0xE0]);
    assert_eq!(build_select_register(0x24), vec![0x74, 0x99, 0x00, 0x0D, 0x01, 0x24]);
}

#[test]
fn write_data_prefixes_the_length() {
    assert_eq!(build_write_data(&vec![0x02]), vec![0x74, 0x9A, 0x00, 0x0E, 0x01, 0x02]);
    assert_eq!(
        build_write_data(&vec![0xC7, 0x00, 0x01]),
        vec![0x74, 0x9A, 0x00, 0x0E, 0x03, 0xC7, 0x00, 0x01]
    );
    assert_eq!(build_write_data(&Vec::new()), vec![0x74, 0x9A, 0x00, 0x0E, 0x00]);
}

#[test]
fn image_packet_carries_the_slice() {
    let image = vec![10u8, 20, 30, 40, 50];
    assert_eq!(
        build_image_packet(&image, 1, 3),
        vec![0x74, 0x9A, 0x00, 0x0E, 0x03, 20, 30, 40]
    );
    assert_eq!(build_image_packet(&image, 0, 0), vec![0x74, 0x9A, 0x00, 0x0E, 0x00]);
}

#[test]
fn status_word_9000_is_success() {
    assert!(response_status_ok(&vec![0x90, 0x00]));
    assert!(response_status_ok(&vec![0xAA, 0xBB, 0x90, 0x00]));
    assert!(!response_status_ok(&vec![0x6A, 0x82]));
    assert!(!response_status_ok(&vec![0x90, 0x01]));
    assert!(!response_status_ok(&vec![0x00, 0x90, 0x00, 0x11]));
}

#[test]
fn short_response_is_treated_as_success() {
    assert!(response_status_ok(&Vec::new()));
    assert!(response_status_ok(&vec![0x90]));
    assert!(response_status_ok(&vec![0x42]));
}
