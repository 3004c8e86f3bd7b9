//! The rejection taxonomy of the engine.
//!
//! Every rejection is synchronous and leaves the game and bet state
//! untouched; the caller may retry with corrected input where the error is a
//! validation error, or fix its ordering where the error is a
//! state-precondition error.

use vstd::prelude::*;

verus! {

/// Why an operation on a game or a bet was rejected.
#[derive(Clone, Copy, PartialEq, Eq, Structural, Debug)]
pub enum CustomError {
    /// A non-empty participant list excludes the bettor.
    GameClosed,
    /// The chosen number lies outside 1..=25.
    InvalidNumber,
    /// No wager is accepted once the betting period has ended.
    BettingPeriodHasEnded,
    /// Prizes can be claimed only after the betting period has ended.
    GameNotFinished,
    /// The staked value lies below the minimum bet.
    InvalidValue,
    /// The bet did not win, or the winning number carries no stake.
    NoPrize,
    /// The bet was placed by someone else.
    BetDoesNotBelongToBettor,
    /// The prize of this bet has already been paid out.
    PrizeAlreadyClaimed,
    /// The pool holds no value to pay a reward or prize from.
    InsufficientBalance,
    /// The party is not the creator of the game.
    InvalidCreator,
    /// The bet references a different game.
    BetDoesNotBelongToGame,
}

} // verus!
