//! Hexadecimal text: what a well-formed hex string is, what it decodes to, and
//! the upper-case rendering of bytes. The conversions themselves are done by the
//! `hex` crate.
use vstd::prelude::*;

verus! {

/// An ASCII hexadecimal digit, in either case.
pub open spec fn is_hex_digit(c: char) -> bool {
    ('0' <= c && c <= '9') || ('a' <= c && c <= 'f') || ('A' <= c && c <= 'F')
}

/// The value of a hexadecimal digit.
pub open spec fn hex_digit_value(c: char) -> int {
    if '0' <= c && c <= '9' {
        c as int - '0' as int
    } else if 'a' <= c && c <= 'f' {
        c as int - 'a' as int + 10
    } else {
        c as int - 'A' as int + 10
    }
}

/// Text that decodes as hex: an even number of hex digits.
pub open spec fn is_hex_text(s: Seq<char>) -> bool {
    s.len() % 2 == 0 && forall|i: int| 0 <= i < s.len() ==> #[trigger] is_hex_digit(s[i])
}

/// The bytes that well-formed hex text stands for, two digits per byte, high
/// digit first.
pub open spec fn hex_decoded(s: Seq<char>) -> Seq<u8> {
    Seq::new(
        s.len() / 2,
        |i: int| (hex_digit_value(s[2 * i]) * 16 + hex_digit_value(s[2 * i + 1])) as u8,
    )
}

/// The upper-case digit for a value below 16.
pub open spec fn upper_digit(v: int) -> char {
    if v < 10 {
        ('0' as int + v) as char
    } else {
        ('A' as int + v - 10) as char
    }
}

/// Upper-case hex rendering of bytes: two digits per byte, high digit first.
pub open spec fn hex_upper(b: Seq<u8>) -> Seq<char> {
    Seq::new(
        2 * b.len(),
        |i: int|
            if i % 2 == 0 {
                upper_digit(b[i / 2] as int / 16)
            } else {
                upper_digit(b[i / 2] as int % 16)
            },
    )
}

/// Relies on `hex::decode`: an odd length or a character that is no hex digit
/// is an error; otherwise each pair of digits gives one byte, high digit first.
#[verifier::external_body]
pub(crate) fn decode_hex(s: &str) -> (r: Option<Vec<u8>>)
    ensures
        r.is_some() == is_hex_text(s@),
        r.is_some() ==> r.unwrap()@ == hex_decoded(s@),
{
    match hex::decode(s) {
        Ok(v) => Some(v),
        Err(_) => None,
    }
}

/// Relies on `hex::encode_upper`: two upper-case digits per byte, high digit first.
#[verifier::external_body]
pub(crate) fn encode_hex_upper(b: &[u8]) -> (r: String)
    ensures
        r@ == hex_upper(b@),
{
    hex::encode_upper(b)
}

} // verus!
