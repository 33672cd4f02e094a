use gibberish::text::{
    is_white_space_char, push_decimal, push_hex_lower, string_from_chars, to_ascii_lower,
    to_chars, trim_chars, trim_end_chars,
};

#[test]
fn whitespace_agrees_with_std_on_every_char() {
    for u in 0..=0x10FFFFu32 {
        if let Some(c) = char::from_u32(u) {
            assert_eq!(is_white_space_char(c), c.is_whitespace(), "U+{u:04X}");
        }
    }
}

#[test]
fn trims_like_std() {
    for s in ["", "   ", " a b ", "\t\u{3000}x\u{85}\n", "ab   ", "\u{a0}"] {
        assert_eq!(string_from_chars(&trim_chars(s)), s.trim());
        assert_eq!(string_from_chars(&trim_end_chars(s)), s.trim_end());
    }
}

#[test]
fn lowers_ascii_letters_only() {
    for u in 0..=0x17Fu32 {
        let c = char::from_u32(u).unwrap();
        assert_eq!(to_ascii_lower(c), c.to_ascii_lowercase());
    }
}

#[test]
fn writes_numerals() {
    let mut s = String::new();
    push_decimal(&mut s, 0);
    s.push(' ');
    push_decimal(&mut s, 18446744073709551615);
    s.push(' ');
    push_hex_lower(&mut s, 0x10FFFF);
    assert_eq!(s, "0 18446744073709551615 10ffff");
}

#[test]
fn splits_into_chars() {
    assert_eq!(to_chars("a▮é"), vec!['a', '▮', 'é']);
}
