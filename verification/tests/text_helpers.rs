use tokimo_app_image_cortex::text::{
    chars_of, is_blank_text, push_decimal, same_text, to_ascii_lowercase, white_space,
};

#[test]
fn chars_of_keeps_every_character() {
    assert_eq!(chars_of("añ😀"), vec!['a', 'ñ', '😀']);
    assert_eq!(chars_of(""), Vec::<char>::new());
}

#[test]
fn same_text_compares_characters() {
    assert!(same_text("amap", "amap"));
    assert!(!same_text("amap", "Amap"));
    assert!(!same_text("amap", "amap "));
    assert!(same_text("", ""));
}

#[test]
fn blank_text_is_only_white_space() {
    assert!(is_blank_text(""));
    assert!(is_blank_text(" \t\r\n"));
    assert!(is_blank_text("\u{3000}\u{00A0}\u{2028}"));
    assert!(!is_blank_text(" a "));
    assert!(!is_blank_text("\u{200B}"));
}

#[test]
fn white_space_matches_std() {
    for u in 0u32..0x3100 {
        if let Some(c) = char::from_u32(u) {
            assert_eq!(white_space(c), c.is_whitespace(), "code point {u:#x}");
        }
    }
}

#[test]
fn lowercase_touches_ascii_only() {
    assert_eq!(to_ascii_lowercase("HeIC"), "heic");
    assert_eq!(to_ascii_lowercase("ÄBC-9"), "Äbc-9");
}

#[test]
fn decimal_digits() {
    let mut s = String::from("n=");
    push_decimal(&mut s, 0);
    assert_eq!(s, "n=0");
    let mut s = String::new();
    push_decimal(&mut s, 511);
    assert_eq!(s, "511");
    let mut s = String::new();
    push_decimal(&mut s, usize::MAX);
    assert_eq!(s, usize::MAX.to_string());
}
