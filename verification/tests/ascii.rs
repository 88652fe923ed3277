use oes::ascii::AStr;

#[test]
fn from_bytes_accepts_exactly_ascii() {
    let a = AStr::from_bytes(b"hello").unwrap();
    assert_eq!(a.as_bytes(), b"hello");
    assert_eq!(a.as_str(), "hello");
    assert_eq!(a.as_astr().as_bytes(), b"hello");
    assert!(AStr::from_bytes(&[0x41, 0x80]).is_err());
    assert_eq!(AStr::from_bytes(&[0xff]).err().unwrap().message(), "Non ascii data");
    assert_eq!(AStr::from_bytes(&[0xff]).err().unwrap().debug_text(), "NonAsciiPattern { .. }");
    assert!(AStr::from_bytes(&[0x7f, 0x00]).is_ok());
}

#[test]
fn try_from_str() {
    assert_eq!(AStr::try_from_str("abc").unwrap().as_bytes(), b"abc");
    assert!(AStr::try_from_str("caf\u{e9}").is_err());
}

#[test]
fn default_is_empty() {
    let d = AStr::default();
    assert_eq!(d.as_bytes().len(), 0);
    assert_eq!(d.as_str(), "");
}

#[test]
fn debug_rendering_escapes() {
    let a = AStr::from_bytes(b"a\tb\n\"q\" 'x' \\ \0\r\x7f~").unwrap();
    assert_eq!(a.debug_text(), "a\"a\\tb\\n\\\"q\\\" \\'x\\' \\\\ \\0\\r~\"");
    assert_eq!(AStr::default().debug_text(), "a\"\"");
}

#[test]
fn unchecked_constructor_keeps_bytes() {
    let a = AStr::from_bytes_unchecked(b"ok");
    assert_eq!(a.as_bytes(), b"ok");
}

/// The rendering as std's `escape_ascii` gives it, byte by byte, with the
/// same special cases.
fn mirror(bytes: &[u8]) -> String {
    let mut s = String::from("a\"");
    for &c in bytes {
        match c {
            b'\0' => s.push_str("\\0"),
            b'\t' => s.push_str("\\t"),
            b'\r' => s.push_str("\\r"),
            b'\n' => s.push_str("\\n"),
            b'"' => s.push_str("\\\""),
            b'\'' => s.push_str("\\'"),
            0x20..=0x7e => s.push_str(&format!("{}", c.escape_ascii())),
            0x7f => {}
            _ => panic!("not rendered"),
        }
    }
    s.push('"');
    s
}

#[test]
fn debug_rendering_matches_escape_ascii() {
    let printable: Vec<u8> = (0x20u8..=0x7f).chain([0u8, 9, 10, 13]).collect();
    let a = AStr::from_bytes(&printable).unwrap();
    assert_eq!(a.debug_text(), mirror(&printable));
}

#[test]
fn try_from_slice() {
    let bytes: &[u8] = b"tty0";
    let a = AStr::try_from(bytes).unwrap();
    assert_eq!(a.as_bytes(), b"tty0");
    let bad: &[u8] = &[0xc3, 0xa9];
    assert!(AStr::try_from(bad).is_err());
}
