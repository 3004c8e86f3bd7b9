//! The engine's cross-operation laws.
//!
//! Each law here relates several transitions of the ledger; the
//! per-transition guarantees stand in the contracts of the transition
//! functions themselves.

use vstd::prelude::*;
use crate::Pubkey;
use crate::draw::lemma_derived_number_range;
use crate::errors::CustomError;
use crate::game::{
    Bet, GameModel, claim_error, claim_prize_amount, claimed_bet, claimed_game, drawn_of,
};
use crate::prize::{adjusted_pool, lemma_payout_bounded, sum_prizes, sum_values};

verus! {

/// The winning number of a well-formed game always lies in 1..=25.
pub proof fn lemma_drawn_of_range(m: GameModel)
    requires
        m.well_formed(),
    ensures
        1 <= drawn_of(m) <= 25,
{
    if m.drawn_number_confirmed is None {
        lemma_derived_number_range(m.combined_hash);
    }
}

/// Law: claims settle exactly once. After a claim on a bet settles, a
/// second claim on that bet — whatever the pool's balance then — is
/// rejected as already claimed; and a rejected claim, by the claim
/// contract, changes neither the game nor the bet, so no value is paid
/// twice.
pub proof fn lemma_claim_settles_exactly_once(
    m: GameModel,
    bet: Bet,
    game_key: Pubkey,
    bettor: Pubkey,
    first_balance: u64,
    second_balance: u64,
)
    requires
        claim_error(m, bet, game_key, bettor, first_balance) is None,
    ensures
        claim_error(claimed_game(m, bet), claimed_bet(bet), game_key, bettor, second_balance)
            == Some(CustomError::PrizeAlreadyClaimed),
{
}

/// The summed computed claim amounts of a family of bets.
pub open spec fn sum_claims(m: GameModel, bets: Seq<Bet>) -> int
    decreases bets.len(),
{
    if bets.len() == 0 {
        0
    } else {
        sum_claims(m, bets.drop_last()) + claim_prize_amount(m, bets.last())
    }
}

/// The staked values of a family of bets.
pub open spec fn bet_values(bets: Seq<Bet>) -> Seq<u64> {
    bets.map_values(|b: Bet| b.value)
}

/// On bets all placed on the drawn number, the summed claim amounts are
/// the summed pari-mutuel prizes of their values.
proof fn lemma_sum_claims_as_prizes(m: GameModel, bets: Seq<Bet>)
    requires
        forall|i: int| 0 <= i < bets.len() ==> (#[trigger] bets[i]).number == drawn_of(m),
    ensures
        sum_claims(m, bets) == sum_prizes(
            bet_values(bets),
            m.total_value,
            m.bets_per_number[drawn_of(m) - 1],
            drawn_of(m),
        ),
    decreases bets.len(),
{
    if bets.len() > 0 {
        lemma_sum_claims_as_prizes(m, bets.drop_last());
        assert(bet_values(bets.drop_last()) =~= bet_values(bets).drop_last());
        assert(bets[bets.len() - 1].number == drawn_of(m));
    }
}

/// Law: the value provided to winners never outgrows the pool. For every
/// family of the game's bets on the drawn number — and only such bets
/// compute a prize — whose values sum to at most the stake booked on that
/// number, the computed claim amounts total at most the pool after the
/// closer-reward deduction, which never exceeds the total staked value.
pub proof fn lemma_claims_bounded_by_pool(m: GameModel, bets: Seq<Bet>)
    requires
        m.well_formed(),
        m.bets_per_number[drawn_of(m) - 1] > 0,
        forall|i: int| 0 <= i < bets.len() ==> (#[trigger] bets[i]).number == drawn_of(m),
        sum_values(bet_values(bets)) <= m.bets_per_number[drawn_of(m) - 1],
    ensures
        sum_claims(m, bets) <= adjusted_pool(m.total_value),
        adjusted_pool(m.total_value) <= m.total_value,
{
    lemma_sum_claims_as_prizes(m, bets);
    lemma_payout_bounded(
        bet_values(bets),
        m.total_value,
        m.bets_per_number[drawn_of(m) - 1],
        drawn_of(m),
    );
}

} // verus!
