use rustychef::escape::json_escape;

#[test]
fn plain_text_passes_through() {
    let out = json_escape(&b"hello".to_vec());
    assert_eq!(out, b"hello".to_vec());
}

#[test]
fn quote_and_backslash_are_escaped() {
    let out = json_escape(&b"a\"b\\c".to_vec());
    assert_eq!(out, b"a\\\"b\\\\c".to_vec());
}

#[test]
fn short_control_escapes() {
    let out = json_escape(&b"\x08\x09\x0a\x0c\x0d".to_vec());
    assert_eq!(out, b"\\b\\t\\n\\f\\r".to_vec());
}

#[test]
fn other_control_bytes_use_u_escapes() {
    let out = json_escape(&vec![0x00u8, 0x01, 0x1f]);
    assert_eq!(out, b"\\u0000\\u0001\\u001f".to_vec());
}

#[test]
fn high_bytes_pass_through() {
    let out = json_escape(&vec![0xc3u8, 0xa9]);
    assert_eq!(out, vec![0xc3u8, 0xa9]);
}

#[test]
fn mixed_text_round_trip_shape() {
    let out = json_escape(&b"say \"hi\"\nback\\slash".to_vec());
    assert_eq!(out, b"say \\\"hi\\\"\\nback\\\\slash".to_vec());
}
