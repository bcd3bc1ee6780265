use udmf::UdmfError;
use udmf::marshal::{bytes_or_empty, c_string_bytes, str_eq, string_or_empty};

#[test]
fn test_c_string_bytes_appends_terminator() {
    let out = c_string_bytes("abc").expect("clean string");
    assert_eq!(out, vec![b'a', b'b', b'c', 0]);
    let empty = c_string_bytes("").expect("empty string");
    assert_eq!(empty, vec![0]);
}

#[test]
fn test_c_string_bytes_rejects_embedded_nul() {
    assert_eq!(c_string_bytes("a\0b"), Err(UdmfError::InvalidParam));
    assert_eq!(c_string_bytes("\0"), Err(UdmfError::InvalidParam));
    assert_eq!(c_string_bytes("trailing\0"), Err(UdmfError::InvalidParam));
}

#[test]
fn test_string_or_empty_normalizes_absent() {
    assert_eq!(string_or_empty(None), "");
    assert_eq!(string_or_empty(Some(String::from("Hello UDMF"))), "Hello UDMF");
    assert_eq!(string_or_empty(Some(String::new())), "");
}

#[test]
fn test_bytes_or_empty_normalizes_absent() {
    assert_eq!(bytes_or_empty(None), Vec::<u8>::new());
    assert_eq!(bytes_or_empty(Some(vec![1, 3, 3, 7])), vec![1, 3, 3, 7]);
}

#[test]
fn test_str_eq_compares_characters() {
    assert!(str_eq("", ""));
    assert!(str_eq("general.text", "general.text"));
    assert!(!str_eq("general.text", "general.tex"));
    assert!(!str_eq("general.text", "general.texx"));
    assert!(str_eq("caf\u{e9}", "caf\u{e9}"));
    assert!(!str_eq("caf\u{e9}", "cafe"));
}
