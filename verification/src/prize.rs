//! The pari-mutuel prize computation.
//!
//! Winners split the pool — the total staked value minus the closer's
//! reward, floored at zero — in proportion to their stake on the drawn
//! number. Every share is rounded down, so the summed payout never exceeds
//! the pool; the conservation law at the end of this module proves it.

use vstd::prelude::*;
use vstd::arithmetic::div_mod::{
    lemma_div_by_multiple, lemma_div_is_ordered, lemma_div_multiples_vanish,
    lemma_fundamental_div_mod, lemma_mod_bound,
};
use vstd::arithmetic::mul::{
    lemma_mul_inequality, lemma_mul_is_commutative, lemma_mul_is_distributive_add,
    lemma_mul_nonnegative,
};
use crate::ENDING_BET_PERIOD_REWARD;

verus! {

/// The pool available to winners: the total staked value minus the
/// closer's reward, floored at zero.
pub open spec fn adjusted_pool(total_value: u64) -> u64 {
    if total_value >= ENDING_BET_PERIOD_REWARD {
        (total_value - ENDING_BET_PERIOD_REWARD) as u64
    } else {
        0u64
    }
}

/// A winner's share before clamping: `floor(pool * value / stake)`.
pub open spec fn raw_share(pool: u64, value: u64, stake: u64) -> int
    recommends
        stake > 0,
{
    (pool * value) / (stake as int)
}

/// The prize of a bet: zero when the drawn number carries no stake or the
/// bet is on another number, else the bet's share of the pool, clamped to
/// the largest representable value as a defensive ceiling.
pub open spec fn prize_amount(
    total_value: u64,
    stake_on_drawn: u64,
    bet_number: u8,
    bet_value: u64,
    drawn: u8,
) -> u64 {
    if stake_on_drawn == 0 || bet_number != drawn {
        0u64
    } else {
        let share = raw_share(adjusted_pool(total_value), bet_value, stake_on_drawn);
        if share > u64::MAX {
            u64::MAX
        } else {
            share as u64
        }
    }
}

/// Computes a bet's prize, with a double-width intermediate so the
/// proportional product cannot overflow.
pub fn compute_prize(
    total_value: u64,
    stake_on_drawn: u64,
    bet_number: u8,
    bet_value: u64,
    drawn: u8,
) -> (p: u64)
    ensures
        p == prize_amount(total_value, stake_on_drawn, bet_number, bet_value, drawn),
{
    if stake_on_drawn == 0 || bet_number != drawn {
        0
    } else {
        let adjusted: u64 = if total_value >= ENDING_BET_PERIOD_REWARD {
            total_value - ENDING_BET_PERIOD_REWARD
        } else {
            0
        };
        proof {
            assert((adjusted as u128) * (bet_value as u128) <= u128::MAX) by (nonlinear_arith)
                requires
                    adjusted <= u64::MAX,
                    bet_value <= u64::MAX,
            ;
        }
        let intermediate: u128 = (adjusted as u128) * (bet_value as u128)
            / (stake_on_drawn as u128);
        if intermediate > u64::MAX as u128 {
            u64::MAX
        } else {
            intermediate as u64
        }
    }
}

/// The summed values of a family of bets.
pub open spec fn sum_values(values: Seq<u64>) -> int
    decreases values.len(),
{
    if values.len() == 0 {
        0
    } else {
        sum_values(values.drop_last()) + values.last()
    }
}

/// The summed unclamped shares of a family of winning bets.
pub open spec fn sum_shares(values: Seq<u64>, pool: u64, stake: u64) -> int
    decreases values.len(),
{
    if values.len() == 0 {
        0
    } else {
        sum_shares(values.drop_last(), pool, stake) + raw_share(pool, values.last(), stake)
    }
}

/// The summed prizes of a family of bets all placed on the drawn number.
pub open spec fn sum_prizes(values: Seq<u64>, total_value: u64, stake: u64, drawn: u8) -> int
    decreases values.len(),
{
    if values.len() == 0 {
        0
    } else {
        sum_prizes(values.drop_last(), total_value, stake, drawn) + prize_amount(
            total_value,
            stake,
            drawn,
            values.last(),
            drawn,
        )
    }
}

/// The summed values of a family of bets are never negative.
pub proof fn lemma_sum_values_nonneg(values: Seq<u64>)
    ensures
        sum_values(values) >= 0,
    decreases values.len(),
{
    if values.len() > 0 {
        lemma_sum_values_nonneg(values.drop_last());
    }
}

/// Each single stake is at most the summed stakes.
pub proof fn lemma_sum_values_element(values: Seq<u64>, i: int)
    requires
        0 <= i < values.len(),
    ensures
        values[i] <= sum_values(values),
    decreases values.len(),
{
    if i == values.len() - 1 {
        lemma_sum_values_nonneg(values.drop_last());
    } else {
        lemma_sum_values_element(values.drop_last(), i);
    }
}

/// Raising one stake raises the summed stakes by the same amount.
pub proof fn lemma_sum_values_update(values: Seq<u64>, i: int, v: u64)
    requires
        0 <= i < values.len(),
    ensures
        sum_values(values.update(i, v)) == sum_values(values) - values[i] + v,
    decreases values.len(),
{
    let updated = values.update(i, v);
    if i == values.len() - 1 {
        assert(updated.drop_last() =~= values.drop_last());
    } else {
        assert(updated.drop_last() =~= values.drop_last().update(i, v));
        lemma_sum_values_update(values.drop_last(), i, v);
    }
}

/// Rounding down distributes superadditively: two shares of one pool never
/// sum past the share of their combined numerator.
proof fn lemma_div_superadditive(a: int, b: int, d: int)
    requires
        0 <= a,
        0 <= b,
        0 < d,
    ensures
        a / d + b / d <= (a + b) / d,
{
    lemma_fundamental_div_mod(a, d);
    lemma_fundamental_div_mod(b, d);
    lemma_mod_bound(a, d);
    lemma_mod_bound(b, d);
    lemma_mul_is_distributive_add(d, a / d, b / d);
    lemma_div_is_ordered(d * (a / d + b / d), a + b, d);
    lemma_div_multiples_vanish(a / d + b / d, d);
}

/// The summed shares stay below the proportional share of the summed
/// values.
proof fn lemma_sum_shares_le_combined(values: Seq<u64>, pool: u64, stake: u64)
    requires
        stake > 0,
    ensures
        sum_shares(values, pool, stake) <= (pool * sum_values(values)) / (stake as int),
    decreases values.len(),
{
    if values.len() == 0 {
        assert((pool * 0) / (stake as int) == 0) by {
            lemma_div_multiples_vanish(0, stake as int);
        };
    } else {
        let prefix = values.drop_last();
        let v = values.last();
        lemma_sum_shares_le_combined(prefix, pool, stake);
        lemma_sum_values_nonneg(prefix);
        lemma_mul_nonnegative(pool as int, sum_values(prefix));
        lemma_mul_nonnegative(pool as int, v as int);
        lemma_div_superadditive(pool * sum_values(prefix), pool * v, stake as int);
        lemma_mul_is_distributive_add(pool as int, sum_values(prefix), v as int);
    }
}

/// Law: pari-mutuel conservation. For a pool `pool` and a total stake
/// `stake` on the drawn number, any family of winning bets whose values sum
/// to at most `stake` receives, in unclamped shares, at most `pool`.
pub proof fn lemma_pari_mutuel_conservation(values: Seq<u64>, pool: u64, stake: u64)
    requires
        stake > 0,
        sum_values(values) <= stake,
    ensures
        sum_shares(values, pool, stake) <= pool,
{
    lemma_sum_shares_le_combined(values, pool, stake);
    lemma_sum_values_nonneg(values);
    lemma_mul_inequality(sum_values(values), stake as int, pool as int);
    lemma_mul_is_commutative(pool as int, sum_values(values));
    lemma_mul_is_commutative(pool as int, stake as int);
    lemma_div_is_ordered(pool * sum_values(values), pool * (stake as int), stake as int);
    lemma_div_by_multiple(pool as int, stake as int);
}

/// Each prize is its unclamped share or less.
proof fn lemma_prize_le_share(total_value: u64, stake: u64, value: u64, drawn: u8)
    requires
        stake > 0,
    ensures
        prize_amount(total_value, stake, drawn, value, drawn) <= raw_share(
            adjusted_pool(total_value),
            value,
            stake,
        ),
{
}

/// Law: the summed prizes of every family of bets on the drawn number whose
/// values sum to at most the stake on that number never exceed the pool
/// after the closer-reward deduction, and so never exceed the total staked
/// value.
pub proof fn lemma_payout_bounded(values: Seq<u64>, total_value: u64, stake: u64, drawn: u8)
    requires
        stake > 0,
        sum_values(values) <= stake,
    ensures
        sum_prizes(values, total_value, stake, drawn) <= adjusted_pool(total_value),
        adjusted_pool(total_value) <= total_value,
{
    lemma_sum_prizes_le_shares(values, total_value, stake, drawn);
    lemma_pari_mutuel_conservation(values, adjusted_pool(total_value), stake);
}

/// The summed clamped prizes stay below the summed unclamped shares.
proof fn lemma_sum_prizes_le_shares(values: Seq<u64>, total_value: u64, stake: u64, drawn: u8)
    requires
        stake > 0,
    ensures
        sum_prizes(values, total_value, stake, drawn) <= sum_shares(
            values,
            adjusted_pool(total_value),
            stake,
        ),
    decreases values.len(),
{
    if values.len() > 0 {
        lemma_sum_prizes_le_shares(values.drop_last(), total_value, stake, drawn);
        lemma_prize_le_share(total_value, stake, values.last(), drawn);
    }
}

} // verus!
