//! HTML entity escaping and URL percent-encoding, each stated exactly
//! and performed by an outside crate.

use vstd::prelude::*;
use vstd::utf8::encode_utf8;

verus! {

/// Entity replacement for one character: `"` `&` `'` `<` `>` become
/// entities, every other character is kept.
pub open spec fn escape_char(c: char) -> Seq<char> {
    if c == '"' {
        seq!['&', 'q', 'u', 'o', 't', ';']
    } else if c == '&' {
        seq!['&', 'a', 'm', 'p', ';']
    } else if c == '\'' {
        seq!['&', '#', 'x', '2', '7', ';']
    } else if c == '<' {
        seq!['&', 'l', 't', ';']
    } else if c == '>' {
        seq!['&', 'g', 't', ';']
    } else {
        seq![c]
    }
}

/// Minimal HTML entity encoding of a character sequence.
pub open spec fn escape_min(s: Seq<char>) -> Seq<char>
    decreases s.len(),
{
    if s.len() == 0 {
        Seq::empty()
    } else {
        escape_char(s[0]) + escape_min(s.drop_first())
    }
}

/// Uppercase hexadecimal digit for a value below 16.
pub open spec fn hex_digit(d: u8) -> char {
    if d < 10 {
        ((48 + d) as u8) as char
    } else {
        ((55 + d) as u8) as char
    }
}

/// Bytes that percent-encoding passes through unchanged: ASCII
/// alphanumerics and `-`, `.`, `_`, `~`.
pub open spec fn is_url_safe_byte(b: u8) -> bool {
    ||| (48 <= b && b <= 57)
    ||| (65 <= b && b <= 90)
    ||| (97 <= b && b <= 122)
    ||| b == 45
    ||| b == 46
    ||| b == 95
    ||| b == 126
}

/// Percent-encoding of one byte.
pub open spec fn percent_byte(b: u8) -> Seq<char> {
    if is_url_safe_byte(b) {
        seq![b as char]
    } else {
        seq!['%', hex_digit((b / 16) as u8), hex_digit((b % 16) as u8)]
    }
}

/// Percent-encoding of a byte sequence.
pub open spec fn percent_encode_bytes(bs: Seq<u8>) -> Seq<char>
    decreases bs.len(),
{
    if bs.len() == 0 {
        Seq::empty()
    } else {
        percent_byte(bs[0]) + percent_encode_bytes(bs.drop_first())
    }
}

/// Relies on `htmlescape::encode_minimal`: each of the characters `"`,
/// `&`, `'`, `<`, `>` is replaced by its entity and every other
/// character is kept unchanged.
#[verifier::external_body]
pub(crate) fn html_escape_minimal(s: &str) -> (r: String)
    ensures
        r@ == escape_min(s@),
{
    htmlescape::encode_minimal(s)
}

/// Relies on `urlencoding::encode`: every byte of the string's UTF-8
/// encoding other than ASCII alphanumerics and `-`, `.`, `_`, `~` is
/// written as `%` followed by two uppercase hexadecimal digits.
#[verifier::external_body]
pub(crate) fn percent_encode(s: &str) -> (r: String)
    ensures
        r@ == percent_encode_bytes(encode_utf8(s@)),
{
    urlencoding::encode(s).into_owned()
}

} // verus!
