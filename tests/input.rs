use gibberish::input::utf8_bytes;
use gibberish::gate::{
    approval_notice, denial_report, is_affirmative, prepare_raw_input, RawInputError,
};
use gibberish::input::{decode_terminal_input, render_bytes, DecodeError};

#[test]
fn decodes_simple_escapes() {
    assert_eq!(
        decode_terminal_input("ls\\n").unwrap(),
        b"ls\n".to_vec()
    );
    assert_eq!(
        decode_terminal_input("\\r\\t\\\\").unwrap(),
        vec![13, 9, 92]
    );
}

#[test]
fn decodes_hex_escapes_of_either_case() {
    assert_eq!(decode_terminal_input("\\x03").unwrap(), vec![3]);
    assert_eq!(decode_terminal_input("\\xfF\\x1b[A").unwrap(), vec![255, 27, b'[', b'A']);
}

#[test]
fn encodes_other_characters_as_utf8() {
    assert_eq!(decode_terminal_input("é▮").unwrap(), "é▮".as_bytes().to_vec());
    assert_eq!(decode_terminal_input("").unwrap(), Vec::<u8>::new());
}

#[test]
fn rejects_dangling_backslash() {
    assert_eq!(
        decode_terminal_input("echo hi\\"),
        Err(DecodeError::DanglingBackslash)
    );
}

#[test]
fn rejects_incomplete_or_invalid_hex() {
    assert_eq!(decode_terminal_input("\\x"), Err(DecodeError::MissingHexDigits));
    assert_eq!(decode_terminal_input("a\\x4"), Err(DecodeError::MissingHexDigits));
    assert_eq!(decode_terminal_input("\\xg1"), Err(DecodeError::InvalidFirstHexDigit));
    assert_eq!(decode_terminal_input("\\x1g"), Err(DecodeError::InvalidSecondHexDigit));
}

#[test]
fn rejects_unsupported_escape() {
    assert_eq!(
        decode_terminal_input("\\q"),
        Err(DecodeError::UnsupportedEscape('q'))
    );
    assert_eq!(
        DecodeError::UnsupportedEscape('q').message(),
        "unsupported escape sequence: \\q"
    );
}

#[test]
fn first_malformed_escape_decides() {
    assert_eq!(
        decode_terminal_input("\\q\\"),
        Err(DecodeError::UnsupportedEscape('q'))
    );
}

#[test]
fn renders_bytes_printably() {
    assert_eq!(render_bytes(b"ls -l\n"), "ls -l\\n");
    assert_eq!(render_bytes(&[3, 0x7f, 0xff, b'\\', b'\r', b'\t']), "\\x03\\x7F\\xFF\\\\\\r\\t");
    assert_eq!(render_bytes(&[]), "");
}

#[test]
fn raw_input_needs_a_spec() {
    assert_eq!(prepare_raw_input(""), Err(RawInputError::MissingSpec));
    assert_eq!(RawInputError::MissingSpec.message(), "usage: :raw <escaped bytes>");
    assert_eq!(
        prepare_raw_input("\\x0"),
        Err(RawInputError::Decode(DecodeError::MissingHexDigits))
    );
    assert_eq!(prepare_raw_input("\\x03").unwrap(), vec![3]);
}

#[test]
fn reads_approval_answers() {
    assert!(is_affirmative("y\n"));
    assert!(is_affirmative("  YES "));
    assert!(is_affirmative("Yes"));
    assert!(!is_affirmative(""));
    assert!(!is_affirmative("no"));
    assert!(!is_affirmative("yess"));
    assert!(!is_affirmative("y e s"));
}

#[test]
fn builds_denial_report_and_notice() {
    assert_eq!(
        denial_report("raw_input", "screen"),
        "User denied the `raw_input` tool call. No bytes were sent.\n\nscreen"
    );
    assert_eq!(
        approval_notice("raw_input", "\"ls\\n\"", b"ls\n"),
        "\napproval required for LLM tool call\ntool: raw_input\ninput: \"ls\\n\"\nbytes: ls\\n\n"
    );
}

#[test]
fn utf8_encoding_agrees_with_std_on_every_char() {
    for u in (0..=0x10FFFFu32).step_by(7).chain([0x7f, 0x80, 0x7ff, 0x800, 0xffff, 0x10000, 0x10ffff]) {
        if let Some(c) = char::from_u32(u) {
            let mut buf = [0u8; 4];
            assert_eq!(utf8_bytes(c), c.encode_utf8(&mut buf).as_bytes().to_vec(), "U+{u:04X}");
        }
    }
}
