//! Uppercase hexadecimal text for bytes and addresses.

use vstd::prelude::*;

verus! {

/// The ASCII code of the uppercase hex digit for a value below 16.
pub open spec fn hex_digit(n: u8) -> u8 {
    if n < 10 {
        (n + 48) as u8
    } else {
        (n + 55) as u8
    }
}

/// The two uppercase hex digits of a byte, as ASCII codes.
pub open spec fn hex_byte(b: u8) -> Seq<u8> {
    seq![hex_digit(b / 16), hex_digit(b % 16)]
}

/// The text of a sequence of ASCII codes.
pub open spec fn ascii_text(bytes: Seq<u8>) -> Seq<char> {
    bytes.map_values(|b: u8| b as char)
}

/// The ASCII code of the uppercase hex digit for a value below 16.
pub fn digit(n: u8) -> (r: u8)
    requires
        n < 16,
    ensures
        r == hex_digit(n),
        r < 128,
{
    if n < 10 {
        n + 48
    } else {
        n + 55
    }
}

/// Whether every code is ASCII.
pub open spec fn is_ascii(bytes: Seq<u8>) -> bool {
    forall|i: int| 0 <= i < bytes.len() ==> bytes[i] < 128
}

/// Append the two uppercase hex digits of a byte to `out`.
pub fn push_hex_byte(out: &mut Vec<u8>, b: u8)
    ensures
        final(out)@ == old(out)@ + hex_byte(b),
        is_ascii(old(out)@) ==> is_ascii(final(out)@),
{
    out.push(digit(b / 16));
    out.push(digit(b % 16));
    assert(final(out)@ =~= old(out)@ + hex_byte(b));
}

/// Append one ASCII code to `out`.
pub fn push_code(out: &mut Vec<u8>, c: u8)
    requires
        c < 128,
    ensures
        final(out)@ == old(out)@.push(c),
        is_ascii(old(out)@) ==> is_ascii(final(out)@),
{
    out.push(c);
}

/// Relies on std's `String::from_utf8`: bytes that are all ASCII are valid UTF-8, and the
/// string holds one character for each byte.
#[verifier::external_body]
pub(crate) fn ascii_string(bytes: Vec<u8>) -> (r: String)
    requires
        is_ascii(bytes@),
    ensures
        r@ == ascii_text(bytes@),
{
    String::from_utf8(bytes).unwrap()
}

} // verus!
