//! The game ledger: lifecycle, bet registration, pool bookkeeping and
//! claim settlement of one lottery round.
//!
//! A game opens with every counter at zero, accepts wagers while the
//! betting period runs, closes on the randomized signal of the closing
//! policy, and settles each winning bet exactly once. Every transition
//! either fully commits or rejects with an error and leaves the state
//! untouched.

use vstd::prelude::*;
use vstd::pervasive::VecAdditionalExecFns;
use crate::{Pubkey, ENDING_BET_PERIOD_REWARD, MIN_BET_VALUE};
use crate::closing::{ending_suffix_matches, suffix_signals_close};
use crate::draw::{derive_number, derived_number};
use crate::entropy::{accumulate, sha256_of};
use crate::errors::CustomError;
use crate::prize::{
    compute_prize, prize_amount, sum_values, lemma_sum_values_element, lemma_sum_values_update,
};

verus! {

/// One lottery round.
#[derive(Clone)]
pub struct Game {
    /// The party that funds and owns the round.
    pub creator: Pubkey,
    /// The identities allowed to bet; empty means open to anyone.
    pub participants: Vec<Pubkey>,
    /// The sum of all bet values ever accepted into the pool.
    pub total_value: u64,
    /// The earliest tick at which closing may be evaluated.
    pub min_ending_slot: u64,
    /// The running digest of every observed entropy value, 32 bytes.
    pub combined_hash: Vec<u8>,
    /// The value staked on each of the 25 numbers.
    pub bets_per_number: Vec<u64>,
    /// One-way latch: no wager is accepted once this is set.
    pub betting_period_ended: bool,
    /// The winning number, fixed exactly once at closure.
    pub drawn_number_confirmed: Option<u8>,
    /// How many wagers were registered; the ordinal of the next bet.
    pub number_of_bets: u64,
    /// The sum of all computed prizes paid out via claims so far.
    pub value_provided_to_winners: u64,
}

/// One accepted wager.
#[derive(Clone, Copy, PartialEq, Eq, Structural, Debug)]
pub struct Bet {
    /// The game the bet belongs to.
    pub game: Pubkey,
    /// Who placed the bet.
    pub bettor: Pubkey,
    /// The staked value.
    pub value: u64,
    /// The chosen number, in 1..=25.
    pub number: u8,
    /// One-way latch: set when the prize has been paid out.
    pub prize_claimed: bool,
}

/// The mathematical image of a game.
#[verifier::ext_equal]
pub ghost struct GameModel {
    pub creator: Pubkey,
    pub participants: Seq<Pubkey>,
    pub total_value: u64,
    pub min_ending_slot: u64,
    pub combined_hash: Seq<u8>,
    pub bets_per_number: Seq<u64>,
    pub betting_period_ended: bool,
    pub drawn_number_confirmed: Option<u8>,
    pub number_of_bets: u64,
    pub value_provided_to_winners: u64,
}

impl View for Game {
    type V = GameModel;

    open spec fn view(&self) -> GameModel {
        GameModel {
            creator: self.creator,
            participants: self.participants@,
            total_value: self.total_value,
            min_ending_slot: self.min_ending_slot,
            combined_hash: self.combined_hash@,
            bets_per_number: self.bets_per_number@,
            betting_period_ended: self.betting_period_ended,
            drawn_number_confirmed: self.drawn_number_confirmed,
            number_of_bets: self.number_of_bets,
            value_provided_to_winners: self.value_provided_to_winners,
        }
    }
}

impl GameModel {
    /// The invariant of every reachable game: the staked values per number
    /// sum to the pool, and the winning number is fixed — inside 1..=25 —
    /// exactly when the betting period has ended.
    pub open spec fn well_formed(self) -> bool {
        &&& self.bets_per_number.len() == 25
        &&& self.combined_hash.len() == 32
        &&& sum_values(self.bets_per_number) == self.total_value
        &&& (self.betting_period_ended <==> self.drawn_number_confirmed is Some)
        &&& match self.drawn_number_confirmed {
            Some(n) => 1 <= n <= 25,
            None => true,
        }
    }
}

/// Whether a bettor may wager on this game: the game is open to anyone or
/// lists the bettor.
pub open spec fn may_bet(m: GameModel, bettor: Pubkey) -> bool {
    m.participants.len() == 0 || m.participants.contains(bettor)
}

/// The coverage precondition: every number carries at least one bet.
pub open spec fn all_numbers_covered(bets: Seq<u64>) -> bool {
    forall|i: int| 0 <= i < bets.len() ==> bets[i] > 0
}

/// Whether this bet-placement request closes the betting period: the
/// minimum tick is reached, every number is covered, and the freshly
/// observed entropy value signals closure.
pub open spec fn closes_now(m: GameModel, observed: Seq<u8>, current_slot: u64) -> bool {
    &&& current_slot >= m.min_ending_slot
    &&& all_numbers_covered(m.bets_per_number)
    &&& suffix_signals_close(observed)
}

/// The reward paid to the closer, capped at the pool's balance.
pub open spec fn reward_for_closing(game_balance: u64) -> u64 {
    if game_balance >= ENDING_BET_PERIOD_REWARD {
        ENDING_BET_PERIOD_REWARD
    } else {
        game_balance
    }
}

/// Why a bet placement is rejected, or nothing when it succeeds.
pub open spec fn place_bet_error(
    m: GameModel,
    bettor: Pubkey,
    number: u8,
    value: u64,
    observed: Seq<u8>,
    current_slot: u64,
    game_balance: u64,
) -> Option<CustomError> {
    if m.betting_period_ended {
        Some(CustomError::BettingPeriodHasEnded)
    } else if closes_now(m, observed, current_slot) {
        if game_balance == 0 {
            Some(CustomError::InsufficientBalance)
        } else {
            None
        }
    } else if !may_bet(m, bettor) {
        Some(CustomError::GameClosed)
    } else if !(1 <= number && number <= 25) {
        Some(CustomError::InvalidNumber)
    } else if value < MIN_BET_VALUE {
        Some(CustomError::InvalidValue)
    } else {
        None
    }
}

/// The game after the closing transition: the observed value is folded
/// into the digest, the latch flips, and the winning number is fixed from
/// the digest as of this very transition.
pub open spec fn closed_game(m: GameModel, observed: Seq<u8>) -> GameModel {
    let digest = sha256_of(m.combined_hash + observed);
    GameModel {
        combined_hash: digest,
        betting_period_ended: true,
        drawn_number_confirmed: Some(derived_number(digest)),
        ..m
    }
}

/// The game after a wager is registered: the observed value is folded into
/// the digest and the stake is booked on the chosen number.
pub open spec fn registered_game(m: GameModel, number: u8, value: u64, observed: Seq<u8>) -> GameModel
    recommends
        1 <= number <= 25,
        m.bets_per_number.len() == 25,
{
    GameModel {
        combined_hash: sha256_of(m.combined_hash + observed),
        bets_per_number: m.bets_per_number.update(
            number - 1,
            (m.bets_per_number[number - 1] + value) as u64,
        ),
        total_value: (m.total_value + value) as u64,
        number_of_bets: (m.number_of_bets + 1) as u64,
        ..m
    }
}

/// The record of a newly registered wager.
pub open spec fn new_bet(game_key: Pubkey, bettor: Pubkey, number: u8, value: u64) -> Bet {
    Bet { game: game_key, bettor, value, number, prize_claimed: false }
}

/// The two mutually exclusive outcomes of a successful bet placement.
#[derive(Clone, Copy, PartialEq, Eq, Structural, Debug)]
pub enum PlaceBetOutcome {
    /// The wager was registered; the caller owes the staked value to the
    /// pool.
    Registered(Bet),
    /// This request closed the betting period; its betting intent was
    /// discarded and the caller is owed the closer's reward from the pool.
    ClosedWithReward(u64),
}

/// A game in its initial state.
pub open spec fn initial_game(creator: Pubkey, participants: Seq<Pubkey>, min_ending_slot: u64) -> GameModel {
    GameModel {
        creator,
        participants,
        total_value: 0,
        min_ending_slot,
        combined_hash: Seq::new(32, |i: int| 0u8),
        bets_per_number: Seq::new(25, |i: int| 0u64),
        betting_period_ended: false,
        drawn_number_confirmed: None,
        number_of_bets: 0,
        value_provided_to_winners: 0,
    }
}

/// The sum of a constant-zero stake table is zero.
proof fn lemma_sum_zero(n: nat)
    ensures
        sum_values(Seq::new(n, |i: int| 0u64)) == 0,
    decreases n,
{
    let s = Seq::new(n, |i: int| 0u64);
    if n > 0 {
        lemma_sum_zero((n - 1) as nat);
        assert(s.drop_last() =~= Seq::new((n - 1) as nat, |i: int| 0u64));
    }
}

/// Creates a new game: every counter zero, the digest blank, and the
/// minimum ending tick the given duration past the current tick. A zero
/// duration is legal and makes the game eligible for closing at once.
pub fn create_game(
    creator: Pubkey,
    participants: Option<Vec<Pubkey>>,
    betting_period_slots: u64,
    current_slot: u64,
) -> (game: Game)
    requires
        current_slot + betting_period_slots <= u64::MAX,
    ensures
        game@ == initial_game(
            creator,
            match participants {
                Some(p) => p@,
                None => Seq::<Pubkey>::empty(),
            },
            (current_slot + betting_period_slots) as u64,
        ),
        game@.well_formed(),
{
    let participant_list: Vec<Pubkey> = match participants {
        Some(p) => p,
        None => Vec::new(),
    };
    let mut combined_hash: Vec<u8> = Vec::new();
    let mut i: usize = 0;
    while i < 32
        invariant
            i <= 32,
            combined_hash@.len() == i,
            forall|j: int| 0 <= j < i ==> combined_hash@[j] == 0u8,
        decreases 32 - i,
    {
        combined_hash.push(0u8);
        i += 1;
    }
    let mut bets_per_number: Vec<u64> = Vec::new();
    let mut k: usize = 0;
    while k < 25
        invariant
            k <= 25,
            bets_per_number@.len() == k,
            forall|j: int| 0 <= j < k ==> bets_per_number@[j] == 0u64,
        decreases 25 - k,
    {
        bets_per_number.push(0u64);
        k += 1;
    }
    let game = Game {
        creator,
        participants: participant_list,
        total_value: 0,
        min_ending_slot: current_slot + betting_period_slots,
        combined_hash,
        bets_per_number,
        betting_period_ended: false,
        drawn_number_confirmed: None,
        number_of_bets: 0,
        value_provided_to_winners: 0,
    };
    proof {
        assert(game@.combined_hash =~= Seq::new(32, |i: int| 0u8));
        assert(game@.bets_per_number =~= Seq::new(25, |i: int| 0u64));
        lemma_sum_zero(25);
        assert(game@ =~= initial_game(
            creator,
            match participants {
                Some(p) => p@,
                None => Seq::<Pubkey>::empty(),
            },
            (current_slot + betting_period_slots) as u64,
        ));
    }
    game
}

/// Whether every one of the 25 numbers carries at least one bet.
fn all_covered(bets: &Vec<u64>) -> (r: bool)
    requires
        bets@.len() == 25,
    ensures
        r == all_numbers_covered(bets@),
{
    let mut i: usize = 0;
    while i < 25
        invariant
            i <= 25,
            bets@.len() == 25,
            forall|j: int| 0 <= j < i ==> bets@[j] > 0,
        decreases 25 - i,
    {
        if bets[i] == 0 {
            assert(bets@[i as int] == 0);
            return false;
        }
        i += 1;
    }
    true
}

impl Game {
    /// Places a bet: the observed entropy value is always folded into the
    /// digest of a still-open game, then the closing policy is evaluated.
    /// When this request closes the period, its betting intent is
    /// discarded and the closer's reward is owed to the caller instead;
    /// otherwise the wager is validated and registered. Every rejection
    /// leaves the game unchanged.
    pub fn place_bet(
        &mut self,
        game_key: Pubkey,
        bettor: Pubkey,
        number: u8,
        value: u64,
        observed: &[u8; 32],
        current_slot: u64,
        game_balance: u64,
    ) -> (result: Result<PlaceBetOutcome, CustomError>)
        requires
            old(self)@.well_formed(),
            place_bet_error(
                old(self)@,
                bettor,
                number,
                value,
                observed@,
                current_slot,
                game_balance,
            ) is None && !closes_now(old(self)@, observed@, current_slot) ==> old(
                self,
            )@.total_value + value <= u64::MAX && old(self)@.number_of_bets < u64::MAX,
        ensures
            final(self)@.well_formed(),
            match result {
                Ok(outcome) => {
                    &&& place_bet_error(
                        old(self)@,
                        bettor,
                        number,
                        value,
                        observed@,
                        current_slot,
                        game_balance,
                    ) is None
                    &&& match outcome {
                        PlaceBetOutcome::ClosedWithReward(reward) => {
                            &&& closes_now(old(self)@, observed@, current_slot)
                            &&& final(self)@ == closed_game(old(self)@, observed@)
                            &&& reward == reward_for_closing(game_balance)
                            &&& reward > 0
                        },
                        PlaceBetOutcome::Registered(bet) => {
                            &&& !closes_now(old(self)@, observed@, current_slot)
                            &&& final(self)@ == registered_game(old(self)@, number, value, observed@)
                            &&& bet == new_bet(game_key, bettor, number, value)
                        },
                    }
                },
                Err(e) => {
                    &&& final(self)@ == old(self)@
                    &&& place_bet_error(
                        old(self)@,
                        bettor,
                        number,
                        value,
                        observed@,
                        current_slot,
                        game_balance,
                    ) == Some(e)
                },
            },
            old(self)@.betting_period_ended ==> final(self)@.betting_period_ended,
            old(self)@.drawn_number_confirmed is Some ==> final(self)@.drawn_number_confirmed
                == old(self)@.drawn_number_confirmed,
    {
        if self.betting_period_ended {
            return Err(CustomError::BettingPeriodHasEnded);
        }
        let new_hash = accumulate(&self.combined_hash, observed);
        let closes = if current_slot >= self.min_ending_slot {
            if all_covered(&self.bets_per_number) {
                ending_suffix_matches(observed)
            } else {
                false
            }
        } else {
            false
        };
        if closes {
            let reward = if game_balance >= ENDING_BET_PERIOD_REWARD {
                ENDING_BET_PERIOD_REWARD
            } else {
                game_balance
            };
            if reward == 0 {
                return Err(CustomError::InsufficientBalance);
            }
            self.combined_hash = new_hash;
            self.betting_period_ended = true;
            let n = derive_number(&self.combined_hash);
            self.drawn_number_confirmed = Some(n);
            proof {
                assert(self@ =~= closed_game(old(self)@, observed@));
            }
            Ok(PlaceBetOutcome::ClosedWithReward(reward))
        } else {
            if !(self.participants.len() == 0 || is_listed(&self.participants, &bettor)) {
                return Err(CustomError::GameClosed);
            }
            if !(1 <= number && number <= 25) {
                return Err(CustomError::InvalidNumber);
            }
            if value < MIN_BET_VALUE {
                return Err(CustomError::InvalidValue);
            }
            let idx = (number - 1) as usize;
            let staked = self.bets_per_number[idx];
            proof {
                lemma_sum_values_element(self.bets_per_number@, idx as int);
            }
            self.combined_hash = new_hash;
            self.bets_per_number.set(idx, staked + value);
            self.total_value = self.total_value + value;
            self.number_of_bets = self.number_of_bets + 1;
            proof {
                lemma_sum_values_update(old(self)@.bets_per_number, idx as int, (staked + value) as u64);
                assert(self@ =~= registered_game(old(self)@, number, value, observed@));
            }
            Ok(PlaceBetOutcome::Registered(Bet {
                game: game_key,
                bettor,
                value,
                number,
                prize_claimed: false,
            }))
        }
    }
}

/// The winning number of a game: the confirmed one once the period has
/// closed, else a non-binding preview derived from the current digest.
pub open spec fn drawn_of(m: GameModel) -> u8 {
    match m.drawn_number_confirmed {
        Some(n) => n,
        None => derived_number(m.combined_hash),
    }
}

/// The prize a bet earns in a game for a given drawn number.
pub open spec fn bet_prize(m: GameModel, bet: Bet, drawn: u8) -> u64
    recommends
        1 <= drawn <= 25,
        m.bets_per_number.len() == 25,
{
    prize_amount(m.total_value, m.bets_per_number[drawn - 1], bet.number, bet.value, drawn)
}

/// The prize a claim on this bet would compute.
pub open spec fn claim_prize_amount(m: GameModel, bet: Bet) -> u64 {
    bet_prize(m, bet, drawn_of(m))
}

/// Why a claim is rejected, or nothing when it settles.
pub open spec fn claim_error(
    m: GameModel,
    bet: Bet,
    game_key: Pubkey,
    bettor: Pubkey,
    game_balance: u64,
) -> Option<CustomError> {
    if bet.bettor != bettor {
        Some(CustomError::BetDoesNotBelongToBettor)
    } else if bet.game != game_key {
        Some(CustomError::BetDoesNotBelongToGame)
    } else if !m.betting_period_ended {
        Some(CustomError::GameNotFinished)
    } else if bet.prize_claimed {
        Some(CustomError::PrizeAlreadyClaimed)
    } else if claim_prize_amount(m, bet) == 0 {
        Some(CustomError::NoPrize)
    } else if game_balance == 0 {
        Some(CustomError::InsufficientBalance)
    } else {
        None
    }
}

/// The game after a settled claim: the computed prize — not the possibly
/// capped paid amount — is added to the value provided to winners.
pub open spec fn claimed_game(m: GameModel, bet: Bet) -> GameModel {
    GameModel {
        value_provided_to_winners: (m.value_provided_to_winners + claim_prize_amount(m, bet)) as u64,
        ..m
    }
}

/// The bet after a settled claim: the latch is set, nothing else moves.
pub open spec fn claimed_bet(bet: Bet) -> Bet {
    Bet { prize_claimed: true, ..bet }
}

/// What a settled claim pays out: the computed prize, capped at the
/// pool's balance as a defensive floor.
pub open spec fn paid_out(m: GameModel, bet: Bet, game_balance: u64) -> u64 {
    let p = claim_prize_amount(m, bet);
    if game_balance >= p {
        p
    } else {
        game_balance
    }
}

impl Game {
    /// The winning number, without the wrapping of the command surface.
    fn drawn_value(&self) -> (n: u8)
        requires
            self@.well_formed(),
        ensures
            n == drawn_of(self@),
            1 <= n <= 25,
    {
        match self.drawn_number_confirmed {
            Some(c) => c,
            None => derive_number(&self.combined_hash),
        }
    }

    /// The winning number: the confirmed one once fixed at closure, else a
    /// non-binding preview from the entropy accumulated so far.
    pub fn calculate_drawn_number(&self) -> (result: Result<u8, CustomError>)
        requires
            self@.well_formed(),
        ensures
            result == Ok::<u8, CustomError>(drawn_of(self@)),
            1 <= drawn_of(self@) <= 25,
    {
        Ok(self.drawn_value())
    }

    /// The prize the given bet earns for the given drawn number.
    pub fn calculate_prize(&self, bet: &Bet, drawn_number: u8) -> (result: Result<u64, CustomError>)
        requires
            self@.well_formed(),
            1 <= drawn_number <= 25,
        ensures
            result == Ok::<u64, CustomError>(bet_prize(self@, *bet, drawn_number)),
    {
        let stake_on_drawn = self.bets_per_number[(drawn_number - 1) as usize];
        Ok(compute_prize(self.total_value, stake_on_drawn, bet.number, bet.value, drawn_number))
    }

    /// Settles a claim: pays the bet's prize — capped at the pool's
    /// balance — sets the bet's latch, and books the computed prize as
    /// provided to winners. Each bet settles exactly once; every rejection
    /// leaves game and bet unchanged.
    pub fn claim_prize(
        &mut self,
        bet: &mut Bet,
        game_key: Pubkey,
        bettor: Pubkey,
        game_balance: u64,
    ) -> (result: Result<u64, CustomError>)
        requires
            old(self)@.well_formed(),
            claim_error(old(self)@, *old(bet), game_key, bettor, game_balance) is None ==> old(
                self,
            )@.value_provided_to_winners + claim_prize_amount(old(self)@, *old(bet)) <= u64::MAX,
        ensures
            final(self)@.well_formed(),
            match result {
                Ok(paid) => {
                    &&& claim_error(old(self)@, *old(bet), game_key, bettor, game_balance) is None
                    &&& final(self)@ == claimed_game(old(self)@, *old(bet))
                    &&& *final(bet) == claimed_bet(*old(bet))
                    &&& paid == paid_out(old(self)@, *old(bet), game_balance)
                    &&& paid > 0
                },
                Err(e) => {
                    &&& final(self)@ == old(self)@
                    &&& *final(bet) == *old(bet)
                    &&& claim_error(old(self)@, *old(bet), game_key, bettor, game_balance)
                        == Some(e)
                },
            },
            final(self)@.value_provided_to_winners >= old(self)@.value_provided_to_winners,
            final(self)@.total_value == old(self)@.total_value,
            final(self)@.bets_per_number == old(self)@.bets_per_number,
            final(self)@.betting_period_ended == old(self)@.betting_period_ended,
            final(self)@.drawn_number_confirmed == old(self)@.drawn_number_confirmed,
    {
        if bet.bettor != bettor {
            return Err(CustomError::BetDoesNotBelongToBettor);
        }
        if bet.game != game_key {
            return Err(CustomError::BetDoesNotBelongToGame);
        }
        if !self.betting_period_ended {
            return Err(CustomError::GameNotFinished);
        }
        if bet.prize_claimed {
            return Err(CustomError::PrizeAlreadyClaimed);
        }
        let drawn = self.drawn_value();
        let stake_on_drawn = self.bets_per_number[(drawn - 1) as usize];
        let prize_value = compute_prize(self.total_value, stake_on_drawn, bet.number, bet.value, drawn);
        if prize_value == 0 {
            return Err(CustomError::NoPrize);
        }
        let prize_to_transfer = if game_balance >= prize_value {
            prize_value
        } else {
            game_balance
        };
        if prize_to_transfer == 0 {
            return Err(CustomError::InsufficientBalance);
        }
        bet.prize_claimed = true;
        self.value_provided_to_winners = self.value_provided_to_winners + prize_value;
        proof {
            assert(self@ =~= claimed_game(old(self)@, *old(bet)));
        }
        Ok(prize_to_transfer)
    }
}

/// Reads the winning number of a game.
pub fn drawn_number(game: &Game) -> (result: Result<u8, CustomError>)
    requires
        game@.well_formed(),
    ensures
        result == Ok::<u8, CustomError>(drawn_of(game@)),
{
    game.calculate_drawn_number()
}

/// Reads the prize a bet would earn, without settling anything.
pub fn prize(game: &Game, bet: &Bet, game_key: Pubkey) -> (result: Result<u64, CustomError>)
    requires
        game@.well_formed(),
    ensures
        match result {
            Ok(p) => bet.game == game_key && p == claim_prize_amount(game@, *bet),
            Err(e) => bet.game != game_key && e == CustomError::BetDoesNotBelongToGame,
        },
{
    if bet.game != game_key {
        return Err(CustomError::BetDoesNotBelongToGame);
    }
    let drawn = game.drawn_value();
    game.calculate_prize(bet, drawn)
}

/// Whether the bettor stands in the participant list.
fn is_listed(participants: &Vec<Pubkey>, bettor: &Pubkey) -> (r: bool)
    ensures
        r == participants@.contains(*bettor),
{
    let mut i: usize = 0;
    while i < participants.len()
        invariant
            i <= participants@.len(),
            forall|j: int| 0 <= j < i ==> participants@[j] != *bettor,
        decreases participants@.len() - i,
    {
        if participants[i] == *bettor {
            assert(participants@[i as int] == *bettor);
            return true;
        }
        i += 1;
    }
    false
}

} // verus!
