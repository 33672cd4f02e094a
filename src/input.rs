//! Decoding of the escaped byte specifications that callers type, and the
//! printable preview of raw bytes shown before they are sent.

use vstd::prelude::*;
use vstd::utf8::encode_scalar;

use crate::text::{hex_char_upper, hex_digit_upper, push_char};

verus! {

/// Why an escaped byte specification was refused.
#[derive(Debug, Clone, Copy, PartialEq, Eq, Structural)]
pub enum DecodeError {
    /// The text ends in a lone backslash.
    DanglingBackslash,
    /// `\x` is not followed by two more characters.
    MissingHexDigits,
    /// The first character after `\x` is not a hexadecimal digit.
    InvalidFirstHexDigit,
    /// The second character after `\x` is not a hexadecimal digit.
    InvalidSecondHexDigit,
    /// A backslash is followed by a character that starts no escape.
    UnsupportedEscape(char),
}

/// The sentence that describes a decoding error.
pub open spec fn decode_error_text(e: DecodeError) -> Seq<char> {
    match e {
        DecodeError::DanglingBackslash => "dangling trailing backslash in input"@,
        DecodeError::MissingHexDigits => "expected two hex digits after \\x in input"@,
        DecodeError::InvalidFirstHexDigit => "invalid first hex digit in \\xNN escape"@,
        DecodeError::InvalidSecondHexDigit => "invalid second hex digit in \\xNN escape"@,
        DecodeError::UnsupportedEscape(c) => "unsupported escape sequence: \\"@.push(c),
    }
}

impl DecodeError {
    /// A sentence that says what is wrong.
    pub fn message(&self) -> (r: String)
        ensures
            r@ == decode_error_text(*self),
    {
        match self {
            DecodeError::DanglingBackslash => String::from_str("dangling trailing backslash in input"),
            DecodeError::MissingHexDigits => String::from_str(
                "expected two hex digits after \\x in input",
            ),
            DecodeError::InvalidFirstHexDigit => String::from_str(
                "invalid first hex digit in \\xNN escape",
            ),
            DecodeError::InvalidSecondHexDigit => String::from_str(
                "invalid second hex digit in \\xNN escape",
            ),
            DecodeError::UnsupportedEscape(c) => {
                let mut m = String::from_str("unsupported escape sequence: \\");
                push_char(&mut m, *c);
                m
            },
        }
    }
}

/// The value of a hexadecimal digit of either case.
pub open spec fn hex_value(c: char) -> Option<nat> {
    let u = c as u32;
    if 0x30 <= u <= 0x39 {
        Some((u - 0x30) as nat)
    } else if 0x61 <= u <= 0x66 {
        Some((u - 0x61 + 10) as nat)
    } else if 0x41 <= u <= 0x46 {
        Some((u - 0x41 + 10) as nat)
    } else {
        None
    }
}

/// The byte that a one-letter escape stands for: `\n`, `\r`, `\t`, `\\`.
pub open spec fn simple_escape(e: char) -> Option<u8> {
    if e == 'n' {
        Some(10u8)
    } else if e == 'r' {
        Some(13u8)
    } else if e == 't' {
        Some(9u8)
    } else if e == '\\' {
        Some(92u8)
    } else {
        None
    }
}

/// `prefix` put before the bytes of a successful decoding; an error unchanged.
pub open spec fn prepend_bytes(prefix: Seq<u8>, r: Result<Seq<u8>, DecodeError>) -> Result<
    Seq<u8>,
    DecodeError,
> {
    match r {
        Ok(b) => Ok(prefix + b),
        Err(e) => Err(e),
    }
}

/// The bytes that an escaped specification stands for, read from the left:
/// `\n`, `\r`, `\t`, `\\` and `\xNN` give one byte each, every other character
/// its UTF-8 encoding; the first malformed escape decides the error.
pub open spec fn decode_escapes(s: Seq<char>) -> Result<Seq<u8>, DecodeError>
    decreases s.len(),
{
    if s.len() == 0 {
        Ok(Seq::empty())
    } else if s[0] != '\\' {
        prepend_bytes(encode_scalar(s[0] as u32), decode_escapes(s.drop_first()))
    } else if s.len() == 1 {
        Err(DecodeError::DanglingBackslash)
    } else if s[1] == 'x' {
        if s.len() < 4 {
            Err(DecodeError::MissingHexDigits)
        } else if hex_value(s[2]) is None {
            Err(DecodeError::InvalidFirstHexDigit)
        } else if hex_value(s[3]) is None {
            Err(DecodeError::InvalidSecondHexDigit)
        } else {
            prepend_bytes(
                seq![(hex_value(s[2])->0 * 16 + hex_value(s[3])->0) as u8],
                decode_escapes(s.subrange(4, s.len() as int)),
            )
        }
    } else {
        match simple_escape(s[1]) {
            Some(b) => prepend_bytes(seq![b], decode_escapes(s.subrange(2, s.len() as int))),
            None => Err(DecodeError::UnsupportedEscape(s[1])),
        }
    }
}

/// Putting two prefixes in turn is putting their concatenation.
proof fn lemma_prepend_twice(a: Seq<u8>, b: Seq<u8>, r: Result<Seq<u8>, DecodeError>)
    ensures
        prepend_bytes(a, prepend_bytes(b, r)) == prepend_bytes(a + b, r),
{
    if let Ok(x) = r {
        assert((a + b) + x =~= a + (b + x));
    }
}

/// The bytes of a decoding result, as a value of specifications.
pub open spec fn decoded_view(r: Result<Vec<u8>, DecodeError>) -> Result<Seq<u8>, DecodeError> {
    match r {
        Ok(b) => Ok(b@),
        Err(e) => Err(e),
    }
}

/// The UTF-8 encoding of a character.
pub fn utf8_bytes(c: char) -> (r: Vec<u8>)
    ensures
        r@ == encode_scalar(c as u32),
{
    let u = c as u32;
    let mut v: Vec<u8> = Vec::new();
    if u <= 0x7F {
        v.push((u & 0x7F) as u8);
    } else if u <= 0x7FF {
        v.push(0xC0 | ((u >> 6) & 0x1F) as u8);
        v.push(0x80 | (u & 0x3F) as u8);
    } else if u <= 0xFFFF {
        v.push(0xE0 | ((u >> 12) & 0x0F) as u8);
        v.push(0x80 | ((u >> 6) & 0x3F) as u8);
        v.push(0x80 | (u & 0x3F) as u8);
    } else {
        v.push(0xF0 | ((u >> 18) & 0x7) as u8);
        v.push(0x80 | ((u >> 12) & 0x3F) as u8);
        v.push(0x80 | ((u >> 6) & 0x3F) as u8);
        v.push(0x80 | (u & 0x3F) as u8);
    }
    assert(v@ =~= encode_scalar(u));
    v
}

/// The value of the hexadecimal digit `c`, if it is one.
pub fn hex_digit_value(c: char) -> (r: Option<u8>)
    ensures
        r is Some <==> hex_value(c) is Some,
        r is Some ==> r->0 as nat == hex_value(c)->0,
{
    let u = c as u32;
    if 0x30 <= u && u <= 0x39 {
        Some((u - 0x30) as u8)
    } else if 0x61 <= u && u <= 0x66 {
        Some((u - 0x61 + 10) as u8)
    } else if 0x41 <= u && u <= 0x46 {
        Some((u - 0x41 + 10) as u8)
    } else {
        None
    }
}

/// Decodes an escaped byte specification (`\n`, `\r`, `\t`, `\\`, `\xNN`; any
/// other character stands for its UTF-8 bytes).
pub fn decode_terminal_input(spec: &str) -> (r: Result<Vec<u8>, DecodeError>)
    ensures
        decoded_view(r) == decode_escapes(spec@),
{
    let chars = crate::text::to_chars(spec);
    let n = chars.len();
    let ghost s = chars@;
    let mut out: Vec<u8> = Vec::new();
    let mut i: usize = 0;
    assert(s.subrange(0, n as int) =~= s);
    while i < n
        invariant
            n == chars.len(),
            s == chars@,
            s == spec@,
            i <= n,
            decode_escapes(s) == prepend_bytes(out@, decode_escapes(s.subrange(i as int, n as int))),
        decreases n - i,
    {
        let ghost rest = s.subrange(i as int, n as int);
        let c = chars[i];
        if c != '\\' {
            let enc = utf8_bytes(c);
            assert(rest.drop_first() =~= s.subrange(i + 1, n as int));
            let ghost before = out@;
            out.extend_from_slice(enc.as_slice());
            assert(out@ =~= before + enc@);
            proof {
                lemma_prepend_twice(before, enc@, decode_escapes(s.subrange(i + 1, n as int)));
            }
            i = i + 1;
        } else {
            if i + 1 >= n {
                return Err(DecodeError::DanglingBackslash);
            }
            let e = chars[i + 1];
            if e == 'x' {
                if n - i < 4 {
                    return Err(DecodeError::MissingHexDigits);
                }
                let hi = match hex_digit_value(chars[i + 2]) {
                    Some(h) => h,
                    None => {
                        return Err(DecodeError::InvalidFirstHexDigit);
                    },
                };
                let lo = match hex_digit_value(chars[i + 3]) {
                    Some(l) => l,
                    None => {
                        return Err(DecodeError::InvalidSecondHexDigit);
                    },
                };
                assert(rest.subrange(4, rest.len() as int) =~= s.subrange(i + 4, n as int));
                let ghost before = out@;
                out.push(hi * 16 + lo);
                assert(out@ =~= before + seq![(hi * 16 + lo) as u8]);
                proof {
                    lemma_prepend_twice(
                        before,
                        seq![(hi * 16 + lo) as u8],
                        decode_escapes(s.subrange(i + 4, n as int)),
                    );
                }
                i = i + 4;
            } else {
                let b: u8 = if e == 'n' {
                    10
                } else if e == 'r' {
                    13
                } else if e == 't' {
                    9
                } else if e == '\\' {
                    92
                } else {
                    return Err(DecodeError::UnsupportedEscape(e));
                };
                assert(rest.subrange(2, rest.len() as int) =~= s.subrange(i + 2, n as int));
                let ghost before = out@;
                out.push(b);
                assert(out@ =~= before + seq![b]);
                proof {
                    lemma_prepend_twice(before, seq![b], decode_escapes(s.subrange(i + 2, n as int)));
                }
                i = i + 2;
            }
        }
    }
    assert(s.subrange(n as int, n as int) =~= Seq::<char>::empty());
    assert(out@ + Seq::<u8>::empty() =~= out@);
    Ok(out)
}

/// Decoding a well-formed specification followed by more text gives the bytes
/// of the first followed by the decoding of the rest.
pub proof fn lemma_decode_concat(a: Seq<char>, b: Seq<char>)
    requires
        decode_escapes(a) is Ok,
    ensures
        decode_escapes(a + b) == prepend_bytes(decode_escapes(a)->Ok_0, decode_escapes(b)),
    decreases a.len(),
{
    let ab = a + b;
    if a.len() == 0 {
        assert(ab =~= b);
        assert(Seq::<u8>::empty() + Seq::<u8>::empty() =~= Seq::<u8>::empty());
        if let Ok(x) = decode_escapes(b) {
            assert(Seq::<u8>::empty() + x =~= x);
        }
    } else if a[0] != '\\' {
        assert(ab[0] == a[0]);
        assert(ab.drop_first() =~= a.drop_first() + b);
        lemma_decode_concat(a.drop_first(), b);
        lemma_prepend_twice(
            encode_scalar(a[0] as u32),
            decode_escapes(a.drop_first())->Ok_0,
            decode_escapes(b),
        );
    } else if a[1] == 'x' {
        assert(ab[0] == a[0] && ab[1] == a[1] && ab[2] == a[2] && ab[3] == a[3]);
        let rest = a.subrange(4, a.len() as int);
        assert(ab.subrange(4, ab.len() as int) =~= rest + b);
        lemma_decode_concat(rest, b);
        lemma_prepend_twice(
            seq![(hex_value(a[2])->0 * 16 + hex_value(a[3])->0) as u8],
            decode_escapes(rest)->Ok_0,
            decode_escapes(b),
        );
    } else {
        assert(ab[0] == a[0] && ab[1] == a[1]);
        let rest = a.subrange(2, a.len() as int);
        assert(ab.subrange(2, ab.len() as int) =~= rest + b);
        lemma_decode_concat(rest, b);
        lemma_prepend_twice(
            seq![simple_escape(a[1])->0],
            decode_escapes(rest)->Ok_0,
            decode_escapes(b),
        );
    }
}

/// Whatever well-formed text comes before it, a specification is refused, so
/// that no byte of it is sent, when it ends in a lone backslash, when it ends
/// in `\x` with fewer than two characters after it, or when a character of the
/// two after `\x` is not a hexadecimal digit.
pub proof fn lemma_malformed_escape_rejected(prefix: Seq<char>, tail: Seq<char>)
    requires
        decode_escapes(prefix) is Ok,
    ensures
        tail == seq!['\\'] ==> decode_escapes(prefix + tail) == Err::<Seq<u8>, DecodeError>(
            DecodeError::DanglingBackslash,
        ),
        2 <= tail.len() <= 3 && tail[0] == '\\' && tail[1] == 'x' ==> decode_escapes(prefix + tail)
            == Err::<Seq<u8>, DecodeError>(DecodeError::MissingHexDigits),
        tail.len() >= 4 && tail[0] == '\\' && tail[1] == 'x' && hex_value(tail[2]) is None
            ==> decode_escapes(prefix + tail) == Err::<Seq<u8>, DecodeError>(
            DecodeError::InvalidFirstHexDigit,
        ),
        tail.len() >= 4 && tail[0] == '\\' && tail[1] == 'x' && hex_value(tail[2]) is Some
            && hex_value(tail[3]) is None ==> decode_escapes(prefix + tail) == Err::<
            Seq<u8>,
            DecodeError,
        >(DecodeError::InvalidSecondHexDigit),
{
    lemma_decode_concat(prefix, tail);
}

/// How one byte is shown in a preview: `\\`, `\n`, `\r`, `\t`, printable ASCII
/// as itself, anything else as `\xNN` in upper-case hexadecimal.
pub open spec fn byte_preview(b: u8) -> Seq<char> {
    if b == 92 {
        seq!['\\', '\\']
    } else if b == 10 {
        seq!['\\', 'n']
    } else if b == 13 {
        seq!['\\', 'r']
    } else if b == 9 {
        seq!['\\', 't']
    } else if 0x20 <= b <= 0x7e {
        seq![b as char]
    } else {
        seq!['\\', 'x', hex_char_upper((b / 16) as nat), hex_char_upper((b % 16) as nat)]
    }
}

/// The preview of a byte sequence: the previews of its bytes, in order.
pub open spec fn bytes_preview(bs: Seq<u8>) -> Seq<char>
    decreases bs.len(),
{
    if bs.len() == 0 {
        Seq::empty()
    } else {
        bytes_preview(bs.drop_last()) + byte_preview(bs.last())
    }
}

/// A printable rendering of raw bytes, for showing them to a person.
pub fn render_bytes(bytes: &[u8]) -> (r: String)
    ensures
        r@ == bytes_preview(bytes@),
{
    let mut out = String::new();
    for i in 0..bytes.len()
        invariant
            out@ == bytes_preview(bytes@.subrange(0, i as int)),
    {
        let b = bytes[i];
        if b == 92 {
            push_char(&mut out, '\\');
            push_char(&mut out, '\\');
        } else if b == 10 {
            push_char(&mut out, '\\');
            push_char(&mut out, 'n');
        } else if b == 13 {
            push_char(&mut out, '\\');
            push_char(&mut out, 'r');
        } else if b == 9 {
            push_char(&mut out, '\\');
            push_char(&mut out, 't');
        } else if 0x20 <= b && b <= 0x7e {
            push_char(&mut out, b as char);
        } else {
            push_char(&mut out, '\\');
            push_char(&mut out, 'x');
            push_char(&mut out, hex_digit_upper(b / 16));
            push_char(&mut out, hex_digit_upper(b % 16));
        }
        assert(bytes@.subrange(0, i + 1).drop_last() =~= bytes@.subrange(0, i as int));
        assert(out@ =~= bytes_preview(bytes@.subrange(0, i + 1)));
    }
    assert(bytes@.subrange(0, bytes@.len() as int) =~= bytes@);
    out
}

} // verus!
