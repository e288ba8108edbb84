use xcb_imdkit::{xim_encoding_to_utf8, PreeditInfo, XimEncoding};

#[test]
fn encoding_from_raw() {
    assert_eq!(XimEncoding::from_raw(0), XimEncoding::CompoundText);
    assert_eq!(XimEncoding::from_raw(1), XimEncoding::Utf8String);
    assert_eq!(XimEncoding::from_raw(2), XimEncoding::Unknown);
    assert!(XimEncoding::CompoundText.needs_conversion());
    assert!(!XimEncoding::Utf8String.needs_conversion());
    assert!(!XimEncoding::Unknown.needs_conversion());
}

#[test]
fn utf8_string_is_decoded() {
    let bytes = "h\u{e9}llo \u{65e5}\u{672c}".as_bytes();
    assert_eq!(xim_encoding_to_utf8(XimEncoding::Utf8String, bytes, None), "h\u{e9}llo \u{65e5}\u{672c}");
    assert_eq!(xim_encoding_to_utf8(XimEncoding::Utf8String, &[0xc3, 0xa9], Some(&[b'x'])), "\u{e9}");
}

#[test]
fn compound_text_uses_converted_bytes() {
    assert_eq!(xim_encoding_to_utf8(XimEncoding::CompoundText, &[1, 2, 3], Some("ab".as_bytes())), "ab");
    assert_eq!(xim_encoding_to_utf8(XimEncoding::CompoundText, &[b'a'], None), "");
}

#[test]
fn unknown_encoding_gives_empty_text() {
    assert_eq!(xim_encoding_to_utf8(XimEncoding::Unknown, "abc".as_bytes(), Some("abc".as_bytes())), "");
}

#[test]
fn invalid_utf8_is_replaced() {
    assert_eq!(xim_encoding_to_utf8(XimEncoding::Utf8String, &[b'a', 0xff, b'b'], None), "a\u{fffd}b");
}

#[test]
fn preedit_info_fields() {
    let info = PreeditInfo::new(0, 3, 1, 2, XimEncoding::Utf8String, "\u{3042}\u{3044}".as_bytes().to_vec(), None);
    assert_eq!(info.status(), 0);
    assert_eq!(info.caret(), 3);
    assert_eq!(info.chg_first(), 1);
    assert_eq!(info.chg_length(), 2);
    assert_eq!(info.text(), "\u{3042}\u{3044}");
}

#[test]
fn preedit_info_compound_text() {
    let info = PreeditInfo::new(2, 0, 0, 0, XimEncoding::CompoundText, vec![0x1b, 0x25], Some(b"ok".to_vec()));
    assert_eq!(info.status(), 2);
    assert_eq!(info.text(), "ok");
    let none = PreeditInfo::new(1, 0, 0, 0, XimEncoding::CompoundText, vec![0x1b], None);
    assert_eq!(none.text(), "");
}

#[test]
fn preedit_info_debug_string() {
    let info = PreeditInfo::new(0, 3, 10, 205, XimEncoding::Utf8String, b"ni hao".to_vec(), None);
    assert_eq!(
        info.debug_string(),
        "PreeditInfo { status: 0, caret: 3, chg_first: 10, chg_length: 205, text: \"ni hao\""
    );
    let info = PreeditInfo::new(4294967295, 0, 0, 0, XimEncoding::Utf8String, "a\"b\n".as_bytes().to_vec(), None);
    assert_eq!(
        info.debug_string(),
        "PreeditInfo { status: 4294967295, caret: 0, chg_first: 0, chg_length: 0, text: \"a\\\"b\\n\""
    );
}
