use rustychef::text::trim_newline;

#[test]
fn trim_without_trailing_newline_is_noop() {
    let mut v = b"hello world".to_vec();
    trim_newline(&mut v);
    assert_eq!(v, b"hello world".to_vec());
}

#[test]
fn trim_keeps_internal_and_leading_whitespace() {
    let mut v = b"  a\nb\t".to_vec();
    trim_newline(&mut v);
    assert_eq!(v, b"  a\nb\t".to_vec());
}

#[test]
fn trim_removes_single_line_feed() {
    let mut v = b"hello\n".to_vec();
    trim_newline(&mut v);
    assert_eq!(v, b"hello".to_vec());
}

#[test]
fn trim_removes_crlf_exactly() {
    let mut v = b"hello\r\n".to_vec();
    trim_newline(&mut v);
    assert_eq!(v, b"hello".to_vec());
}

#[test]
fn trim_removes_only_one_terminator() {
    let mut v = b"hello\r\n\r\n".to_vec();
    trim_newline(&mut v);
    assert_eq!(v, b"hello\r\n".to_vec());
}

#[test]
fn trim_leaves_lone_carriage_return() {
    let mut v = b"hello\r".to_vec();
    trim_newline(&mut v);
    assert_eq!(v, b"hello\r".to_vec());
}

#[test]
fn trim_empty_is_empty() {
    let mut v: Vec<u8> = Vec::new();
    trim_newline(&mut v);
    assert_eq!(v, Vec::<u8>::new());
}
