use vstd::arithmetic::div_mod::lemma_div_denominator;
use vstd::prelude::*;

use crate::error::ErrorCode;

verus! {

/// Staking yield per year, in basis points (5%).
pub const STAKING_APY_BASIS_POINTS: u64 = 500;

/// Loan interest per year, in percent.
pub const LENDING_INTEREST_RATE: u64 = 13;

pub const PERCENTAGE_DIVISOR: u64 = 100;

pub const BASIS_POINTS_DIVISOR: u64 = 10000;

/// Logical ticks in a year.
pub const SLOTS_PER_YEAR: u64 = 432000 * 365;

pub const SECONDS_PER_YEAR: u64 = 365 * 24 * 60 * 60;

/// The reward owed on `staked_amount` for the ticks from `stake_slot` to
/// `current_slot`: `staked * 500 * ticks / (10000 * SLOTS_PER_YEAR)`, rounded
/// down. A clock that went back, a product past `u128::MAX` or a reward past
/// `u64::MAX` is an overflow.
pub open spec fn staking_reward(staked_amount: u64, current_slot: u64, stake_slot: u64) -> Result<
    u64,
    ErrorCode,
> {
    let product = staked_amount * STAKING_APY_BASIS_POINTS * (current_slot - stake_slot);
    let reward = product / (BASIS_POINTS_DIVISOR * SLOTS_PER_YEAR);
    if current_slot < stake_slot {
        Err(ErrorCode::ArithmeticOverflow)
    } else if product > u128::MAX || reward > u64::MAX {
        Err(ErrorCode::ArithmeticOverflow)
    } else {
        Ok(reward as u64)
    }
}

/// The simple interest owed on `principal` after `elapsed` seconds:
/// nothing where no time has passed (or the clock went back), else
/// `principal * 13 * elapsed / (100 * SECONDS_PER_YEAR)`, rounded down.
/// A product past `u128::MAX` or an interest past `u64::MAX` is an overflow.
pub open spec fn loan_interest(principal: u64, elapsed: i64) -> Result<u64, ErrorCode> {
    let product = principal * LENDING_INTEREST_RATE * elapsed;
    let interest = product / (PERCENTAGE_DIVISOR * SECONDS_PER_YEAR);
    if elapsed <= 0 {
        Ok(0)
    } else if product > u128::MAX || interest > u64::MAX {
        Err(ErrorCode::ArithmeticOverflow)
    } else {
        Ok(interest as u64)
    }
}

/// Computes the staking reward, multiplying before dividing in 128 bits and
/// checking every step for overflow.
pub fn calculate_staking_reward(staked_amount: u64, current_slot: u64, stake_slot: u64) -> (r:
    Result<u64, ErrorCode>)
    ensures
        r == staking_reward(staked_amount, current_slot, stake_slot),
{
    let slots_staked = match current_slot.checked_sub(stake_slot) {
        Some(v) => v,
        None => return Err(ErrorCode::ArithmeticOverflow),
    };
    let weighted = (staked_amount as u128) * (STAKING_APY_BASIS_POINTS as u128);
    let product = match weighted.checked_mul(slots_staked as u128) {
        Some(v) => v,
        None => return Err(ErrorCode::ArithmeticOverflow),
    };
    let reward = product / (BASIS_POINTS_DIVISOR as u128) / (SLOTS_PER_YEAR as u128);
    proof {
        lemma_div_denominator(product as int, BASIS_POINTS_DIVISOR as int, SLOTS_PER_YEAR as int);
    }
    if reward > u64::MAX as u128 {
        return Err(ErrorCode::ArithmeticOverflow);
    }
    Ok(reward as u64)
}

/// Computes the loan interest, multiplying before dividing in 128 bits and
/// checking every step for overflow.
pub fn calculate_loan_interest(principal: u64, time_elapsed_seconds: i64) -> (r: Result<
    u64,
    ErrorCode,
>)
    ensures
        r == loan_interest(principal, time_elapsed_seconds),
{
    if time_elapsed_seconds <= 0 {
        return Ok(0);
    }
    proof {
        assert(principal * LENDING_INTEREST_RATE <= u64::MAX * LENDING_INTEREST_RATE) by (nonlinear_arith)
            requires
                principal <= u64::MAX,
        ;
    }
    let weighted = (principal as u128) * (LENDING_INTEREST_RATE as u128);
    let product = match weighted.checked_mul(time_elapsed_seconds as u128) {
        Some(v) => v,
        None => return Err(ErrorCode::ArithmeticOverflow),
    };
    let interest = product / (PERCENTAGE_DIVISOR as u128) / (SECONDS_PER_YEAR as u128);
    proof {
        lemma_div_denominator(product as int, PERCENTAGE_DIVISOR as int, SECONDS_PER_YEAR as int);
    }
    if interest > u64::MAX as u128 {
        return Err(ErrorCode::ArithmeticOverflow);
    }
    Ok(interest as u64)
}

} // verus!
