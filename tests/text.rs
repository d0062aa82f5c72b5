use rsmi_wrapper::error::RsmiError;
use rsmi_wrapper::text::{device_string, string_buffer, text_prefix, DEVICE_STRING_LEN};

#[test]
fn buffer_is_zeroed() {
    let b = string_buffer();
    assert_eq!(b.len(), DEVICE_STRING_LEN);
    assert_eq!(DEVICE_STRING_LEN, 256);
    assert!(b.iter().all(|&x| x == 0));
}

#[test]
fn text_stops_at_first_terminator() {
    let mut b = string_buffer();
    b[..6].copy_from_slice(b"Radeon");
    b[7] = b'x';
    assert_eq!(device_string(0, &b).unwrap(), "Radeon");
    assert_eq!(text_prefix(b"ab\0cd"), b"ab".to_vec());
}

#[test]
fn text_without_terminator_takes_whole_buffer() {
    assert_eq!(device_string(0, b"gpu").unwrap(), "gpu");
}

#[test]
fn empty_text() {
    assert_eq!(device_string(0, &string_buffer()).unwrap(), "");
    assert_eq!(device_string(0, b"").unwrap(), "");
}

#[test]
fn multibyte_text_is_decoded() {
    assert_eq!(device_string(0, "caf\u{e9}\0".as_bytes()).unwrap(), "caf\u{e9}");
}

#[test]
fn invalid_text_gives_invalid_encoding() {
    assert!(matches!(device_string(0, &[0x52, 0xff, 0xfe, 0]), Err(RsmiError::InvalidUtf8)));
    assert!(matches!(device_string(0, &[0xc3]), Err(RsmiError::InvalidUtf8)));
}

#[test]
fn failed_status_wins_over_buffer() {
    assert!(matches!(device_string(2, b"name\0"), Err(RsmiError::NotSupported)));
}
