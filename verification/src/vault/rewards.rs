//! Reward accrual: simple interest over elapsed seconds, and the split of an
//! early exit into payout and penalty.

use crate::arith::{fits_i64, safe_percentage, safe_sub, safe_sub_i64};
use crate::vault::state::{
    ErrorCode, EARLY_UNLOCK_PENALTY_BPS, REWARD_RATE_DENOMINATOR, SECONDS_PER_YEAR,
};
use vstd::arithmetic::div_mod::{
    lemma_div_basics, lemma_div_denominator, lemma_div_is_ordered,
};
use vstd::arithmetic::mul::lemma_mul_upper_bound;
use vstd::prelude::*;

verus! {

/// Reward accrued on `amount` at `rate_bps` basis points a year between `t0`
/// and `t1`, rounded down. Nothing accrues unless `t1` is after `t0`.
pub open spec fn accrued_reward(amount: int, rate_bps: int, t0: int, t1: int) -> int {
    if t1 > t0 {
        (amount * rate_bps * (t1 - t0)) / (REWARD_RATE_DENOMINATOR * SECONDS_PER_YEAR)
    } else {
        0
    }
}

/// What `calculate_pending_rewards` returns: the accrued reward where the
/// elapsed time is representable and the reward fits in 64 bits.
pub open spec fn pending_rewards(
    staked_amount: u64,
    reward_rate: u16,
    last_claim: i64,
    current_time: i64,
) -> Result<u64, ErrorCode> {
    let reward = accrued_reward(
        staked_amount as int,
        reward_rate as int,
        last_claim as int,
        current_time as int,
    );
    if !fits_i64(current_time - last_claim) {
        Err(ErrorCode::Overflow)
    } else if reward > u64::MAX {
        Err(ErrorCode::Overflow)
    } else {
        Ok(reward as u64)
    }
}

/// A reward is never negative, and is zero on a zero amount or a zero rate.
pub proof fn lemma_accrued_reward_bounds(amount: int, rate_bps: int, t0: int, t1: int)
    requires
        0 <= amount,
        0 <= rate_bps,
    ensures
        0 <= accrued_reward(amount, rate_bps, t0, t1),
        amount == 0 || rate_bps == 0 ==> accrued_reward(amount, rate_bps, t0, t1) == 0,
{
    if t1 > t0 {
        assert(0 <= amount * rate_bps * (t1 - t0)) by (nonlinear_arith)
            requires
                0 <= amount,
                0 <= rate_bps,
                t1 > t0,
        ;
        assert(amount == 0 || rate_bps == 0 ==> amount * rate_bps * (t1 - t0) == 0)
            by (nonlinear_arith);
    }
}

/// Reward accrued on `staked_amount` between `last_claim` and `current_time`.
///
/// The product of amount, rate and seconds is formed in 128 bits. `Overflow`
/// is returned when the elapsed time is not representable or the reward does
/// not fit in 64 bits; nothing is ever truncated.
pub fn calculate_pending_rewards(
    staked_amount: u64,
    reward_rate: u16,
    last_claim: i64,
    current_time: i64,
) -> (r: Result<u64, ErrorCode>)
    ensures
        r == pending_rewards(staked_amount, reward_rate, last_claim, current_time),
{
    let time_elapsed = match current_time.checked_sub(last_claim) {
        Some(elapsed) => elapsed,
        None => {
            return Err(ErrorCode::Overflow);
        },
    };
    if time_elapsed <= 0 {
        return Ok(0);
    }
    let ghost product = staked_amount * reward_rate * time_elapsed;
    let ghost year: int = REWARD_RATE_DENOMINATOR * SECONDS_PER_YEAR;
    proof {
        lemma_mul_upper_bound(
            staked_amount as int,
            u64::MAX as int,
            reward_rate as int,
            u16::MAX as int,
        );
    }
    let weighted = match (staked_amount as u128).checked_mul(reward_rate as u128) {
        Some(weighted) => weighted,
        None => {
            return Err(ErrorCode::Overflow);
        },
    };
    let accrued = match weighted.checked_mul(time_elapsed as u128) {
        Some(accrued) => accrued,
        None => {
            proof {
                lemma_div_is_ordered(u128::MAX as int, product, year);
            }
            return Err(ErrorCode::Overflow);
        },
    };
    let rewards = accrued / (REWARD_RATE_DENOMINATOR as u128) / (SECONDS_PER_YEAR as u128);
    proof {
        lemma_div_denominator(product, 10000, 31_536_000);
    }
    if rewards > u64::MAX as u128 {
        return Err(ErrorCode::Overflow);
    }
    Ok(rewards as u64)
}

/// What `calculate_early_unlock_rewards` returns: the split `(user_payout,
/// penalty)` of the reward earned so far by a position that leaves at
/// `current_time`, before `unlock_at`.
///
/// The reward of the whole lock is weighted by the share of the lock that has
/// passed, rounded down; the penalty is 15% of that, rounded down; the payout
/// is the rest.
pub open spec fn early_unlock_rewards(
    staked_amount: u64,
    reward_rate: u16,
    staked_at: i64,
    unlock_at: i64,
    current_time: i64,
) -> Result<(u64, u64), ErrorCode> {
    let time_staked = current_time - staked_at;
    let lock_duration = unlock_at - staked_at;
    let potential = accrued_reward(
        staked_amount as int,
        reward_rate as int,
        staked_at as int,
        unlock_at as int,
    );
    let proportional = potential * time_staked / lock_duration;
    let penalty = proportional * EARLY_UNLOCK_PENALTY_BPS / 10000;
    if !fits_i64(time_staked) || !fits_i64(lock_duration) {
        Err(ErrorCode::Underflow)
    } else if potential > u64::MAX {
        Err(ErrorCode::Overflow)
    } else if lock_duration == 0 {
        Err(ErrorCode::DivisionByZero)
    } else if proportional < 0 || proportional > u64::MAX {
        Err(ErrorCode::Overflow)
    } else if proportional * EARLY_UNLOCK_PENALTY_BPS > u64::MAX {
        Err(ErrorCode::Overflow)
    } else {
        Ok(((proportional - penalty) as u64, penalty as u64))
    }
}

/// Payout and penalty of an early exit add up to the proportional reward, and
/// the penalty is never the larger part of it.
pub proof fn law_early_exit_split_adds_up(
    staked_amount: u64,
    reward_rate: u16,
    staked_at: i64,
    unlock_at: i64,
    current_time: i64,
)
    requires
        early_unlock_rewards(staked_amount, reward_rate, staked_at, unlock_at, current_time) is Ok,
    ensures
        ({
            let (user_payout, penalty) = early_unlock_rewards(
                staked_amount,
                reward_rate,
                staked_at,
                unlock_at,
                current_time,
            )->Ok_0;
            let potential = accrued_reward(
                staked_amount as int,
                reward_rate as int,
                staked_at as int,
                unlock_at as int,
            );
            &&& user_payout + penalty == potential * (current_time - staked_at) / (unlock_at
                - staked_at)
            &&& penalty == (user_payout + penalty) * 1500 / 10000
            &&& penalty <= user_payout
        }),
{
}

/// Payout and penalty of a position that leaves at `current_time`, before it
/// matures at `unlock_at`.
///
/// `Underflow` is returned when a time difference is not representable,
/// `DivisionByZero` when the lock has no length, and `Overflow` when the
/// reward of the whole lock, the proportional reward or fifteen hundred times
/// the proportional reward does not fit in 64 bits.
pub fn calculate_early_unlock_rewards(
    staked_amount: u64,
    reward_rate: u16,
    staked_at: i64,
    unlock_at: i64,
    current_time: i64,
) -> (r: Result<(u64, u64), ErrorCode>)
    ensures
        r == early_unlock_rewards(staked_amount, reward_rate, staked_at, unlock_at, current_time),
{
    let time_staked = match safe_sub_i64(current_time, staked_at) {
        Ok(seconds) => seconds,
        Err(e) => {
            return Err(ErrorCode::from_arith(e));
        },
    };
    let lock_duration = match safe_sub_i64(unlock_at, staked_at) {
        Ok(seconds) => seconds,
        Err(e) => {
            return Err(ErrorCode::from_arith(e));
        },
    };
    let total_potential_rewards = match calculate_pending_rewards(
        staked_amount,
        reward_rate,
        staked_at,
        unlock_at,
    ) {
        Ok(rewards) => rewards,
        Err(e) => {
            return Err(e);
        },
    };
    if lock_duration == 0 {
        return Err(ErrorCode::DivisionByZero);
    }
    let ghost weighted = total_potential_rewards * time_staked;
    let proportional_rewards: u64 = if total_potential_rewards == 0 {
        proof {
            assert(weighted == 0) by (nonlinear_arith)
                requires
                    weighted == total_potential_rewards * time_staked,
                    total_potential_rewards == 0,
            ;
            lemma_div_basics(lock_duration as int);
        }
        0
    } else if time_staked < 0 {
        proof {
            lemma_negative_share(
                total_potential_rewards as int,
                time_staked as int,
                lock_duration as int,
            );
        }
        return Err(ErrorCode::Overflow);
    } else {
        proof {
            lemma_mul_upper_bound(
                total_potential_rewards as int,
                u64::MAX as int,
                time_staked as int,
                i64::MAX as int,
            );
        }
        let share = (total_potential_rewards as u128) * (time_staked as u128) / (
        lock_duration as u128);
        if share > u64::MAX as u128 {
            return Err(ErrorCode::Overflow);
        }
        share as u64
    };
    assert(proportional_rewards == weighted / (lock_duration as int));
    let penalty_amount = match safe_percentage(proportional_rewards, EARLY_UNLOCK_PENALTY_BPS) {
        Ok(penalty) => penalty,
        Err(e) => {
            return Err(ErrorCode::from_arith(e));
        },
    };
    let user_payout = match safe_sub(proportional_rewards, penalty_amount) {
        Ok(payout) => payout,
        Err(e) => {
            return Err(ErrorCode::from_arith(e));
        },
    };
    Ok((user_payout, penalty_amount))
}

/// A positive reward weighted by a negative time is negative whatever the
/// positive length of the lock.
proof fn lemma_negative_share(potential: int, time_staked: int, lock_duration: int)
    by (nonlinear_arith)
    requires
        potential > 0,
        time_staked < 0,
        lock_duration > 0,
    ensures
        potential * time_staked / lock_duration < 0,
{
}

} // verus!
