//! Notifications the engine emits for off-engine indexers.
//!
//! Each record carries the identities, amounts and timestamp of one
//! observable step of a game's life; delivering them is the caller's
//! concern.

use vstd::prelude::*;
use crate::Pubkey;

verus! {

/// A new game was created.
#[derive(Clone, Copy, PartialEq, Eq, Structural, Debug)]
pub struct GameCreated {
    pub game: Pubkey,
    pub creator: Pubkey,
    pub private: bool,
    pub timestamp: i64,
}

/// A wager was registered.
#[derive(Clone, Copy, PartialEq, Eq, Structural, Debug)]
pub struct BetPlaced {
    pub game: Pubkey,
    pub bettor: Pubkey,
    pub number: u8,
    pub value: u64,
    pub timestamp: i64,
    pub bet: Pubkey,
}

/// A prize was paid out to a winner.
#[derive(Clone, Copy, PartialEq, Eq, Structural, Debug)]
pub struct PrizeClaimed {
    pub game: Pubkey,
    pub bettor: Pubkey,
    pub drawn_number: u8,
    pub prize_value: u64,
    pub timestamp: i64,
}

/// The betting period ended and the closer's reward was paid.
#[derive(Clone, Copy, PartialEq, Eq, Structural, Debug)]
pub struct EndOfBettingPeriod {
    pub game: Pubkey,
    pub closer: Pubkey,
    pub reward: u64,
    pub timestamp: i64,
}

} // verus!
