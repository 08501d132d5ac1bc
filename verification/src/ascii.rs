//! ASCII text building: byte-to-string conversion and fixed-width decimal
//! rendering, used to compose screenshot file names.

use vstd::prelude::*;

verus! {

/// The characters of an all-ASCII byte sequence, one per byte.
pub open spec fn chars_of_bytes(b: Seq<u8>) -> Seq<char> {
    b.map(|_i: int, x: u8| x as char)
}

/// Relies on String::from_utf8: bytes below 128 decode to exactly one
/// character per byte, each with the byte's code point.
#[verifier::external_body]
pub(crate) fn ascii_string(bytes: Vec<u8>) -> (r: String)
    requires
        forall|i: int| 0 <= i < bytes@.len() ==> bytes@[i] < 128,
    ensures
        r@ == chars_of_bytes(bytes@),
{
    match String::from_utf8(bytes) {
        Ok(s) => s,
        Err(_) => String::new(),
    }
}

/// The character of the decimal digit d (for 0 <= d <= 9).
pub open spec fn digit_char(d: int) -> char {
    ((48 + d) as u8) as char
}

/// The two-digit zero-padded decimal rendering of n.
pub open spec fn two_digits_spec(n: int) -> Seq<char> {
    seq![digit_char(n / 10), digit_char(n % 10)]
}

/// The four-digit zero-padded decimal rendering of n.
pub open spec fn four_digits_spec(n: int) -> Seq<char> {
    seq![
        digit_char(n / 1000),
        digit_char((n / 100) % 10),
        digit_char((n / 10) % 10),
        digit_char(n % 10),
    ]
}

/// Renders n as exactly two decimal digits, zero-padded.
pub fn two_digits(n: u32) -> (r: String)
    requires
        n <= 99,
    ensures
        r@ == two_digits_spec(n as int),
{
    let mut bytes: Vec<u8> = Vec::new();
    bytes.push(48 + (n / 10) as u8);
    bytes.push(48 + (n % 10) as u8);
    proof {
        assert(chars_of_bytes(bytes@) =~= two_digits_spec(n as int));
    }
    ascii_string(bytes)
}

/// Renders n as exactly four decimal digits, zero-padded.
pub fn four_digits(n: u32) -> (r: String)
    requires
        n <= 9999,
    ensures
        r@ == four_digits_spec(n as int),
{
    let mut bytes: Vec<u8> = Vec::new();
    bytes.push(48 + (n / 1000) as u8);
    bytes.push(48 + ((n / 100) % 10) as u8);
    bytes.push(48 + ((n / 10) % 10) as u8);
    bytes.push(48 + (n % 10) as u8);
    proof {
        assert(chars_of_bytes(bytes@) =~= four_digits_spec(n as int));
    }
    ascii_string(bytes)
}

} // verus!
