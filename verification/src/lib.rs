//! A pari-mutuel lottery settlement engine.
//!
//! Participants stake value on one of 25 numbers. Every accepted wager feeds
//! an entropy accumulator; once a minimum tick has passed, every number is
//! covered, and the freshly observed entropy value signals closure, the
//! betting period ends, a winning number is fixed from the accumulated
//! digest, and winners split the pool in proportion to their stake.

use vstd::prelude::*;

pub mod closing;
pub mod counter;
pub mod draw;
pub mod entropy;
pub mod errors;
pub mod events;
pub mod game;
pub mod laws;
pub mod movie;
pub mod prize;

verus! {

/// The incentive paid to whichever bettor's request closes the betting
/// period, in the smallest value unit.
pub const ENDING_BET_PERIOD_REWARD: u64 = 10_000_000;

/// The smallest value a bet may stake.
pub const MIN_BET_VALUE: u64 = 10_000_000;

/// A 256-bit account identity, held as four 64-bit little-endian words.
/// The engine never looks inside an identity; it only compares them.
#[derive(Clone, Copy, PartialEq, Eq, Structural, Debug)]
pub struct Pubkey {
    pub w0: u64,
    pub w1: u64,
    pub w2: u64,
    pub w3: u64,
}

impl Pubkey {
    /// Builds an identity from its four 64-bit words.
    pub fn from_words(w0: u64, w1: u64, w2: u64, w3: u64) -> (k: Pubkey)
        ensures
            k == (Pubkey { w0, w1, w2, w3 }),
    {
        Pubkey { w0, w1, w2, w3 }
    }
}

} // verus!
