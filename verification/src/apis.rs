//! Helpers shared by the request layer.

use vstd::prelude::*;
use vstd::string::StringSliceAdditionalSpecFns;

verus! {

/// True of the bytes the form-urlencoded byte serializer keeps unchanged:
/// the ASCII alphanumerics and '*', '-', '.', '_'.
pub open spec fn urlencode_unchanged(b: u8) -> bool {
    ||| b == 42
    ||| b == 45
    ||| b == 46
    ||| 48 <= b <= 57
    ||| 65 <= b <= 90
    ||| b == 95
    ||| 97 <= b <= 122
}

/// The upper-case hex digit for `n`, meaningful for `n < 16`.
pub open spec fn upper_hex_digit(n: u8) -> char {
    if n < 10 {
        (48 + n) as char
    } else {
        (55 + n) as char
    }
}

/// What one byte becomes under the form-urlencoded byte serializer: itself
/// when unchanged, '+' for a space, and a percent escape with two upper-case
/// hex digits otherwise.
pub open spec fn urlencode_byte(b: u8) -> Seq<char> {
    if urlencode_unchanged(b) {
        seq![b as char]
    } else if b == 32 {
        seq!['+']
    } else {
        seq!['%', upper_hex_digit(b / 16), upper_hex_digit(b % 16)]
    }
}

/// The form-urlencoded serialization of a byte string.
pub open spec fn urlencoded(bytes: Seq<u8>) -> Seq<char>
    decreases bytes.len(),
{
    if bytes.len() == 0 {
        Seq::empty()
    } else {
        urlencode_byte(bytes[0]) + urlencoded(bytes.drop_first())
    }
}

/// Percent-encodes a string's UTF-8 bytes for the
/// `application/x-www-form-urlencoded` format.
///
/// Relies on url::form_urlencoded::byte_serialize: each byte is kept when it
/// is an ASCII alphanumeric or one of '*', '-', '.', '_', becomes '+' when
/// it is a space, and is percent-escaped with two upper-case hex digits
/// otherwise.
#[verifier::external_body]
pub fn urlencode(s: &str) -> (r: String)
    ensures
        r@ == urlencoded(s.spec_bytes()),
{
    url::form_urlencoded::byte_serialize(s.as_bytes()).collect()
}

} // verus!
