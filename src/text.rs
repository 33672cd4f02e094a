//! Character-level helpers shared by the rest of the library: whitespace,
//! trimming, decimal and hexadecimal numerals.

use vstd::prelude::*;

verus! {

/// The Unicode `White_Space` property, the set that `char::is_whitespace` accepts.
pub open spec fn is_white_space(c: char) -> bool {
    let u = c as u32;
    ||| 0x09 <= u <= 0x0d
    ||| u == 0x20
    ||| u == 0x85
    ||| u == 0xa0
    ||| u == 0x1680
    ||| 0x2000 <= u <= 0x200a
    ||| u == 0x2028
    ||| u == 0x2029
    ||| u == 0x202f
    ||| u == 0x205f
    ||| u == 0x3000
}

/// `s` without its trailing whitespace.
pub open spec fn trim_end_ws(s: Seq<char>) -> Seq<char>
    decreases s.len(),
{
    if s.len() > 0 && is_white_space(s.last()) {
        trim_end_ws(s.drop_last())
    } else {
        s
    }
}

/// `s` without its leading whitespace.
pub open spec fn trim_start_ws(s: Seq<char>) -> Seq<char>
    decreases s.len(),
{
    if s.len() > 0 && is_white_space(s[0]) {
        trim_start_ws(s.drop_first())
    } else {
        s
    }
}

/// `s` without leading and trailing whitespace.
pub open spec fn trim_ws(s: Seq<char>) -> Seq<char> {
    trim_end_ws(trim_start_ws(s))
}

/// Every character of `s` is whitespace: what trims to the empty text.
pub open spec fn is_blank(s: Seq<char>) -> bool {
    forall|i: int| 0 <= i < s.len() ==> is_white_space(#[trigger] s[i])
}

/// The character of a decimal digit.
pub open spec fn digit_char(d: nat) -> char {
    (('0' as u32) + d) as char
}

/// The decimal numeral of `n`, without leading zeros.
pub open spec fn decimal(n: nat) -> Seq<char>
    decreases n,
{
    if n < 10 {
        seq![digit_char(n)]
    } else {
        decimal(n / 10).push(digit_char(n % 10))
    }
}

/// The character of a hexadecimal digit, lower case.
pub open spec fn hex_char_lower(d: nat) -> char {
    if d < 10 {
        digit_char(d)
    } else {
        (('a' as u32) + (d - 10)) as char
    }
}

/// The character of a hexadecimal digit, upper case.
pub open spec fn hex_char_upper(d: nat) -> char {
    if d < 10 {
        digit_char(d)
    } else {
        (('A' as u32) + (d - 10)) as char
    }
}

/// The lower-case hexadecimal numeral of `n`, without leading zeros.
pub open spec fn hex_lower(n: nat) -> Seq<char>
    decreases n,
{
    if n < 16 {
        seq![hex_char_lower(n)]
    } else {
        hex_lower(n / 16).push(hex_char_lower(n % 16))
    }
}

/// Relies on `String::push`: the character is appended.
#[verifier::external_body]
pub(crate) fn push_char(s: &mut String, c: char)
    ensures
        final(s)@ == old(s)@.push(c),
{
    s.push(c);
}

/// Whether `c` is whitespace in the sense of Unicode's `White_Space` property.
pub fn is_white_space_char(c: char) -> (r: bool)
    ensures
        r == is_white_space(c),
{
    let u = c as u32;
    (0x09 <= u && u <= 0x0d) || u == 0x20 || u == 0x85 || u == 0xa0 || u == 0x1680 || (0x2000
        <= u && u <= 0x200a) || u == 0x2028 || u == 0x2029 || u == 0x202f || u == 0x205f || u
        == 0x3000
}

/// The character of the decimal digit `d`.
pub fn digit_to_char(d: u32) -> (c: char)
    requires
        d < 10,
    ensures
        c == digit_char(d as nat),
{
    match d {
        0 => '0',
        1 => '1',
        2 => '2',
        3 => '3',
        4 => '4',
        5 => '5',
        6 => '6',
        7 => '7',
        8 => '8',
        _ => '9',
    }
}

/// Appends the decimal numeral of `n` to `out`.
pub fn push_decimal(out: &mut String, n: u64)
    ensures
        final(out)@ == old(out)@ + decimal(n as nat),
    decreases n,
{
    if n >= 10 {
        push_decimal(out, n / 10);
    }
    let d = (n % 10) as u32;
    push_char(out, digit_to_char(d));
    proof {
        assert(old(out)@ + decimal(n as nat) =~= out@) by {
            if n >= 10 {
                assert(decimal(n as nat) == decimal((n / 10) as nat).push(digit_char((n % 10) as nat)));
            }
        }
    }
}

/// The text that `char::escape_default` gives for `c`: a backslash before tab,
/// carriage return, line feed, backslash and both quotes; printable ASCII as it
/// is; every other character as `\u{..}` with its code in lower-case hexadecimal.
pub open spec fn escape_default(c: char) -> Seq<char> {
    if c == '\t' {
        seq!['\\', 't']
    } else if c == '\r' {
        seq!['\\', 'r']
    } else if c == '\n' {
        seq!['\\', 'n']
    } else if c == '\\' || c == '\'' || c == '"' {
        seq!['\\', c]
    } else if 0x20 <= (c as u32) <= 0x7e {
        seq![c]
    } else {
        seq!['\\', 'u', '{'] + hex_lower(c as u32 as nat) + seq!['}']
    }
}

/// The character of the hexadecimal digit `d`, lower case.
pub fn hex_digit_lower(d: u32) -> (c: char)
    requires
        d < 16,
    ensures
        c == hex_char_lower(d as nat),
{
    match d {
        10 => 'a',
        11 => 'b',
        12 => 'c',
        13 => 'd',
        14 => 'e',
        15 => 'f',
        _ => digit_to_char(d),
    }
}

/// The character of the hexadecimal digit `d`, upper case.
pub fn hex_digit_upper(d: u8) -> (c: char)
    requires
        d < 16,
    ensures
        c == hex_char_upper(d as nat),
{
    match d {
        10 => 'A',
        11 => 'B',
        12 => 'C',
        13 => 'D',
        14 => 'E',
        15 => 'F',
        _ => digit_to_char(d as u32),
    }
}

/// Appends the lower-case hexadecimal numeral of `n` to `out`.
pub fn push_hex_lower(out: &mut String, n: u32)
    ensures
        final(out)@ == old(out)@ + hex_lower(n as nat),
    decreases n,
{
    if n >= 16 {
        push_hex_lower(out, n / 16);
    }
    push_char(out, hex_digit_lower(n % 16));
    assert(old(out)@ + hex_lower(n as nat) =~= out@);
}

/// Appends the escaped form of `c` (see [`escape_default`]) to `out`.
pub fn push_escape_default(out: &mut String, c: char)
    ensures
        final(out)@ == old(out)@ + escape_default(c),
{
    let u = c as u32;
    if c == '\t' {
        push_char(out, '\\');
        push_char(out, 't');
    } else if c == '\r' {
        push_char(out, '\\');
        push_char(out, 'r');
    } else if c == '\n' {
        push_char(out, '\\');
        push_char(out, 'n');
    } else if c == '\\' || c == '\'' || c == '"' {
        push_char(out, '\\');
        push_char(out, c);
    } else if 0x20 <= u && u <= 0x7e {
        push_char(out, c);
    } else {
        push_char(out, '\\');
        push_char(out, 'u');
        push_char(out, '{');
        push_hex_lower(out, u);
        push_char(out, '}');
    }
    assert(old(out)@ + escape_default(c) =~= out@);
}

/// The characters of `s`, in order.
pub fn to_chars(s: &str) -> (v: Vec<char>)
    ensures
        v@ == s@,
{
    let n = s.unicode_len();
    let mut v: Vec<char> = Vec::new();
    for i in 0..n
        invariant
            n == s@.len(),
            v@ == s@.subrange(0, i as int),
    {
        v.push(s.get_char(i));
        assert(v@ =~= s@.subrange(0, i + 1));
    }
    assert(v@ =~= s@);
    v
}

/// Appends the characters of `v` to `out`.
pub fn push_chars(out: &mut String, v: &Vec<char>)
    ensures
        final(out)@ == old(out)@ + v@,
{
    for i in 0..v.len()
        invariant
            out@ == old(out)@ + v@.subrange(0, i as int),
    {
        push_char(out, v[i]);
        assert(out@ =~= old(out)@ + v@.subrange(0, i + 1));
    }
    assert(v@.subrange(0, v@.len() as int) =~= v@);
}

/// The text made of the characters of `v`.
pub fn string_from_chars(v: &Vec<char>) -> (s: String)
    ensures
        s@ == v@,
{
    let mut s = String::new();
    push_chars(&mut s, v);
    assert(s@ =~= v@);
    s
}

/// Removes the trailing whitespace of `v`.
pub fn trim_end_in_place(v: &mut Vec<char>)
    ensures
        final(v)@ == trim_end_ws(old(v)@),
{
    let mut k = v.len();
    assert(v@.subrange(0, k as int) =~= v@);
    while k > 0 && is_white_space_char(v[k - 1])
        invariant
            k <= v.len(),
            v@ == old(v)@,
            trim_end_ws(v@.subrange(0, k as int)) == trim_end_ws(v@),
        decreases k,
    {
        assert(v@.subrange(0, k as int).drop_last() =~= v@.subrange(0, k - 1));
        k = k - 1;
    }
    v.truncate(k);
}

/// The text of `s` without its trailing whitespace, as characters.
pub fn trim_end_chars(s: &str) -> (v: Vec<char>)
    ensures
        v@ == trim_end_ws(s@),
{
    let mut v = to_chars(s);
    trim_end_in_place(&mut v);
    v
}

/// The characters of `chars` from `from` on, without their leading whitespace.
pub fn trim_start_from(chars: &Vec<char>, from: usize) -> (v: Vec<char>)
    requires
        from <= chars.len(),
    ensures
        v@ == trim_start_ws(chars@.subrange(from as int, chars@.len() as int)),
{
    let n = chars.len();
    let mut k: usize = from;
    while k < n && is_white_space_char(chars[k])
        invariant
            n == chars.len(),
            from <= k <= n,
            trim_start_ws(chars@.subrange(k as int, n as int)) == trim_start_ws(
                chars@.subrange(from as int, n as int),
            ),
        decreases n - k,
    {
        assert(chars@.subrange(k as int, n as int).drop_first() =~= chars@.subrange(k + 1, n as int));
        k = k + 1;
    }
    let mut v: Vec<char> = Vec::new();
    let mut j: usize = k;
    while j < n
        invariant
            n == chars.len(),
            k <= j <= n,
            v@ == chars@.subrange(k as int, j as int),
        decreases n - j,
    {
        v.push(chars[j]);
        assert(v@ =~= chars@.subrange(k as int, j + 1));
        j = j + 1;
    }
    v
}

/// The text of `s` without leading and trailing whitespace, as characters.
pub fn trim_chars(s: &str) -> (v: Vec<char>)
    ensures
        v@ == trim_ws(s@),
{
    let chars = to_chars(s);
    assert(chars@.subrange(0, chars@.len() as int) =~= chars@);
    let mut v = trim_start_from(&chars, 0);
    trim_end_in_place(&mut v);
    v
}

/// `c` with an ASCII capital letter made small.
pub open spec fn ascii_lower(c: char) -> char {
    if 'A' <= c <= 'Z' {
        ((c as u32) + 32) as char
    } else {
        c
    }
}

/// The ASCII lower-case form of `c`.
pub fn to_ascii_lower(c: char) -> (r: char)
    ensures
        r == ascii_lower(c),
{
    if 'A' <= c && c <= 'Z' {
        (((c as u32) + 32) as u8) as char
    } else {
        c
    }
}

} // verus!
