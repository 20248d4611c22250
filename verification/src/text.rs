//! Text rendering helpers: bytes viewed as characters, decimal rendering of
//! 32-bit words, and UTF-8 interpretation of payload bytes.

use vstd::prelude::*;
use vstd::utf8::{decode_utf8, valid_utf8};

verus! {

/// Each byte of `s` read as the character with the same code point.
pub open spec fn spec_byte_chars(s: Seq<u8>) -> Seq<char> {
    s.map_values(|b: u8| b as char)
}

/// The decimal digit character for `d`, for `d < 10`.
pub open spec fn spec_decimal_digit(d: nat) -> char {
    ((0x30 + d) as u8) as char
}

/// The decimal rendering of `n`: most significant digit first, no leading
/// zeros except for `n == 0` itself.
pub open spec fn spec_decimal_chars(n: nat) -> Seq<char>
    decreases n,
{
    if n < 10 {
        seq![spec_decimal_digit(n)]
    } else {
        spec_decimal_chars(n / 10) + seq![spec_decimal_digit(n % 10)]
    }
}

/// Relies on `String::push`: appends exactly the given character.
#[verifier::external_body]
pub(crate) fn push_byte_char(s: &mut String, b: u8)
    ensures
        final(s)@ == old(s)@ + seq![b as char],
{
    s.push(b as char);
}

/// Relies on `core::str::from_utf8`: returns a view of the bytes as text
/// exactly when they are valid UTF-8, reading them per the UTF-8 format.
#[verifier::external_body]
pub(crate) fn utf8_to_str(bytes: &[u8]) -> (r: Option<&str>)
    ensures
        r is Some <==> valid_utf8(bytes@),
        r matches Some(s) ==> s@ == decode_utf8(bytes@),
{
    core::str::from_utf8(bytes).ok()
}

/// Appends the decimal rendering of `x` to `s`.
pub(crate) fn push_decimal_u32(s: &mut String, x: u32)
    ensures
        final(s)@ == old(s)@ + spec_decimal_chars(x as nat),
    decreases x,
{
    if x >= 10 {
        push_decimal_u32(s, x / 10);
    }
    push_byte_char(s, 0x30 + (x % 10) as u8);
    proof {
        assert(s@ =~= old(s)@ + spec_decimal_chars(x as nat));
    }
}

} // verus!
