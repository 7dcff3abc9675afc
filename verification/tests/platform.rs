use fartcloud::platform_text::decode_platform_text;

#[test]
fn text_is_cut_to_the_written_length() {
    let buf = b"PlayerOne\0\0\0".to_vec();
    assert_eq!(decode_platform_text(buf, 9), Some("PlayerOne".to_string()));
}

#[test]
fn written_length_past_the_buffer_keeps_everything() {
    assert_eq!(decode_platform_text(b"abc".to_vec(), 10), Some("abc".to_string()));
    assert_eq!(decode_platform_text(b"abc".to_vec(), -1), Some("abc".to_string()));
}

#[test]
fn nothing_written_is_empty_text() {
    assert_eq!(decode_platform_text(vec![0u8; 64], 0), Some(String::new()));
}

#[test]
fn invalid_utf8_is_rejected() {
    assert_eq!(decode_platform_text(vec![0xff, 0xfe, 0x41], 3), None);
    // a multi-byte character cut in the middle is not valid either
    let buf = "é".as_bytes().to_vec();
    assert_eq!(decode_platform_text(buf, 1), None);
}

#[test]
fn multibyte_text_is_decoded() {
    let buf = "Pétomane".as_bytes().to_vec();
    let n = buf.len() as i32;
    assert_eq!(decode_platform_text(buf, n), Some("Pétomane".to_string()));
}
