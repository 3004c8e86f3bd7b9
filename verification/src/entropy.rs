//! Entropy accumulation.
//!
//! Every bet-placement request carries a fresh unpredictable 256-bit value.
//! The game folds each observed value into a single running digest,
//! `combined' = sha256(combined || observed)`, so that no party can choose
//! when to reveal a value relative to a digest that has not absorbed it yet.

use vstd::prelude::*;

verus! {

/// What the SHA-256 digest of a byte string is. The engine carries digests
/// forward and never needs to compute one in specifications, so the digest
/// function is left without a definition.
pub uninterp spec fn sha256_of(bytes: Seq<u8>) -> Seq<u8>;

/// Relies on `anchor_lang::solana_program::hash::hash`: the SHA-256 digest
/// of the input bytes, 32 bytes long, a function of the input alone.
#[verifier::external_body]
pub(crate) fn accumulate(combined: &Vec<u8>, observed: &[u8; 32]) -> (r: Vec<u8>)
    ensures
        r@ == sha256_of(combined@ + observed@),
        r@.len() == 32,
{
    let mut data = combined.clone();
    data.extend_from_slice(observed);
    anchor_lang::solana_program::hash::hash(&data).to_bytes().to_vec()
}

} // verus!
