//! The randomized closing signal.
//!
//! Once a game is eligible to close, the decision is taken from the freshly
//! observed entropy value of the very request under evaluation: the period
//! closes iff the last two characters of the value's hexadecimal encoding
//! are equal, roughly a 1-in-16 chance per eligible request. The value is
//! unknown to every party until the request is committed, so nobody can
//! predict which request closes the period.

use vstd::prelude::*;

verus! {

/// One lowercase hexadecimal digit as its ASCII byte; `n` is a nibble.
pub open spec fn hex_digit(n: u8) -> u8 {
    if n < 10 {
        (48 + n) as u8
    } else {
        (87 + n) as u8
    }
}

/// The lowercase hexadecimal encoding of a byte string, high nibble first,
/// as ASCII bytes.
pub open spec fn hex_bytes(bytes: Seq<u8>) -> Seq<u8> {
    Seq::new(
        bytes.len() * 2,
        |i: int|
            if i % 2 == 0 {
                hex_digit(bytes[i / 2] / 16)
            } else {
                hex_digit(bytes[i / 2] % 16)
            },
    )
}

/// Whether the last two characters of the hexadecimal encoding of an
/// observed entropy value are equal: the signal that closes the period.
pub open spec fn suffix_signals_close(observed: Seq<u8>) -> bool
    recommends
        observed.len() > 0,
{
    let h = hex_bytes(observed);
    h[h.len() - 2] == h[h.len() - 1]
}

/// Relies on `hex::encode`: two lowercase hexadecimal digits per input
/// byte, high nibble first.
#[verifier::external_body]
pub(crate) fn hex_encode_bytes(bytes: &[u8; 32]) -> (r: Vec<u8>)
    ensures
        r@ == hex_bytes(bytes@),
{
    hex::encode(bytes).into_bytes()
}

/// Whether the observed entropy value of the current request signals
/// closure of the betting period.
pub fn ending_suffix_matches(observed: &[u8; 32]) -> (r: bool)
    ensures
        r == suffix_signals_close(observed@),
{
    let h = hex_encode_bytes(observed);
    assert(h@.len() == 64);
    let hi = h[62];
    let lo = h[63];
    hi == lo
}

} // verus!
