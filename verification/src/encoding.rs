//! Percent-encoding of search queries and JSON string literals for scripts,
//! both computed by outside crates.

use vstd::prelude::*;
use vstd::utf8::encode_utf8;

verus! {

/// An ASCII letter or digit byte.
pub open spec fn is_alnum_byte(b: u8) -> bool {
    (48 <= b && b <= 57) || (65 <= b && b <= 90) || (97 <= b && b <= 122)
}

/// The upper-case hexadecimal digit for `d < 16`.
pub open spec fn hex_upper(d: int) -> char {
    if d < 10 {
        ((d + 48) as u32) as char
    } else {
        ((d + 55) as u32) as char
    }
}

/// The lower-case hexadecimal digit for `d < 16`.
pub open spec fn hex_lower(d: int) -> char {
    if d < 10 {
        ((d + 48) as u32) as char
    } else {
        ((d + 87) as u32) as char
    }
}

/// One byte under the `NON_ALPHANUMERIC` set: letters and digits stay,
/// every other byte becomes `%XX` with upper-case hex digits.
pub open spec fn percent_byte(b: u8) -> Seq<char> {
    if is_alnum_byte(b) {
        seq![(b as u32) as char]
    } else {
        seq!['%', hex_upper(b as int / 16), hex_upper(b as int % 16)]
    }
}

/// Percent-encoding of a byte sequence, byte by byte.
pub open spec fn percent_bytes(bs: Seq<u8>) -> Seq<char>
    decreases bs.len(),
{
    if bs.len() == 0 {
        Seq::empty()
    } else {
        percent_byte(bs[0]) + percent_bytes(bs.drop_first())
    }
}

/// The percent-encoding of the UTF-8 bytes of `s`, every byte that is not
/// an ASCII letter or digit written as `%XX`.
pub open spec fn percent_encode_spec(s: Seq<char>) -> Seq<char> {
    percent_bytes(encode_utf8(s))
}

/// `percent_encoding::utf8_percent_encode(s, NON_ALPHANUMERIC)`, collected
/// into a string.  The crate encodes each byte of the UTF-8 encoding that is
/// not an ASCII letter or digit as `%` and two upper-case hex digits
/// (`percent_encode_byte`), and copies the others.
#[verifier::external_body]
pub(crate) fn percent_encode_query(s: &str) -> (r: String)
    ensures
        r@ == percent_encode_spec(s@),
{
    percent_encoding::utf8_percent_encode(s, percent_encoding::NON_ALPHANUMERIC).to_string()
}

/// How `serde_json` writes one character inside a string literal.
pub open spec fn json_escape_char(c: char) -> Seq<char> {
    if c == '"' {
        seq!['\\', '"']
    } else if c == '\\' {
        seq!['\\', '\\']
    } else if c == '\u{8}' {
        seq!['\\', 'b']
    } else if c == '\t' {
        seq!['\\', 't']
    } else if c == '\n' {
        seq!['\\', 'n']
    } else if c == '\u{c}' {
        seq!['\\', 'f']
    } else if c == '\r' {
        seq!['\\', 'r']
    } else if (c as u32) < 0x20 {
        seq!['\\', 'u', '0', '0', hex_lower((c as u32) as int / 16), hex_lower((c as u32) as int % 16)]
    } else {
        seq![c]
    }
}

/// The escaped contents of a JSON string literal.
pub open spec fn json_escape(s: Seq<char>) -> Seq<char>
    decreases s.len(),
{
    if s.len() == 0 {
        Seq::empty()
    } else {
        json_escape_char(s[0]) + json_escape(s.drop_first())
    }
}

/// The JSON string literal for `s`, quotes included.
pub open spec fn json_string(s: Seq<char>) -> Seq<char> {
    seq!['"'] + json_escape(s) + seq!['"']
}

/// `serde_json::to_string` of a string slice.  The crate writes a quote,
/// the text with `"`, `\` and the control characters below U+0020 escaped
/// (short escapes where JSON has them, `\u00xx` with lower-case hex
/// otherwise), and a closing quote.  Serialising a `str` into the in-memory
/// buffer `to_string` uses has no failing path in the crate's source; the
/// empty string that an error would give is never produced.
#[verifier::external_body]
pub(crate) fn json_quote(s: &str) -> (r: String)
    ensures
        r@ == json_string(s@),
{
    serde_json::to_string(s).unwrap_or_default()
}

} // verus!
