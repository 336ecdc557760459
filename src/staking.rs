use vstd::prelude::*;

use crate::calculators::{calculate_staking_reward, staking_reward};
use crate::error::ErrorCode;
use crate::events::{StakeEvent, UnstakeEvent};
use crate::state::{Bank, Identity, User};

verus! {

/// What `stake` leaves behind: the new bank and user, or the error that
/// refuses it. A user with a stake first has the reward on that stake
/// settled from the reserve; then the checkpoint moves to `current_slot`
/// and `amount` moves from the spendable balance into the stake.
pub open spec fn stake_outcome(
    bank: Bank,
    user: User,
    payer: Identity,
    amount: u64,
    current_slot: u64,
) -> Result<(Bank, User), ErrorCode> {
    if user.owner@ != payer@ {
        Err(ErrorCode::Unauthorized)
    } else if amount == 0 {
        Err(ErrorCode::InvalidAmount)
    } else if !bank.is_operational {
        Err(ErrorCode::NotEligible)
    } else if user.balance < amount {
        Err(ErrorCode::InsufficientBalance)
    } else {
        let settled = if user.staked_balance > 0 {
            staking_reward(user.staked_balance, current_slot, user.stake_slot)
        } else {
            Ok(0u64)
        };
        match settled {
            Err(e) => Err(e),
            Ok(reward) => {
                if bank.balance < reward {
                    Err(ErrorCode::BankInsufficientFunds)
                } else if user.balance + reward > u64::MAX {
                    Err(ErrorCode::ArithmeticOverflow)
                } else if user.staked_balance + amount > u64::MAX {
                    Err(ErrorCode::ArithmeticOverflow)
                } else if bank.staked_balance + amount > u64::MAX {
                    Err(ErrorCode::ArithmeticOverflow)
                } else {
                    Ok(
                        (
                            Bank {
                                balance: (bank.balance - reward) as u64,
                                staked_balance: (bank.staked_balance + amount) as u64,
                                ..bank
                            },
                            User {
                                balance: (user.balance + reward - amount) as u64,
                                staked_balance: (user.staked_balance + amount) as u64,
                                stake_slot: current_slot,
                                ..user
                            },
                        ),
                    )
                }
            },
        }
    }
}

/// What `unstake` leaves behind. The reward is paid on the unstaked
/// `amount` alone, from the existing checkpoint, which stays where it was
/// for whatever remains staked.
pub open spec fn unstake_outcome(
    bank: Bank,
    user: User,
    payer: Identity,
    amount: u64,
    current_slot: u64,
) -> Result<(Bank, User), ErrorCode> {
    if user.owner@ != payer@ {
        Err(ErrorCode::Unauthorized)
    } else if amount == 0 {
        Err(ErrorCode::InvalidAmount)
    } else if user.staked_balance < amount {
        Err(ErrorCode::InsufficientBalance)
    } else {
        match staking_reward(amount, current_slot, user.stake_slot) {
            Err(e) => Err(e),
            Ok(reward) => {
                if bank.balance < reward {
                    Err(ErrorCode::BankInsufficientFunds)
                } else if user.balance + amount + reward > u64::MAX {
                    Err(ErrorCode::ArithmeticOverflow)
                } else if bank.staked_balance < amount {
                    Err(ErrorCode::ArithmeticOverflow)
                } else {
                    Ok(
                        (
                            Bank {
                                balance: (bank.balance - reward) as u64,
                                staked_balance: (bank.staked_balance - amount) as u64,
                                ..bank
                            },
                            User {
                                balance: (user.balance + amount + reward) as u64,
                                staked_balance: (user.staked_balance - amount) as u64,
                                ..user
                            },
                        ),
                    )
                }
            },
        }
    }
}

/// Stakes `amount` of the payer's spendable balance at tick `current_slot`.
/// On failure neither record changes.
pub fn stake(bank: &mut Bank, user: &mut User, payer: &Identity, amount: u64, current_slot: u64) -> (r:
    Result<StakeEvent, ErrorCode>)
    ensures
        match stake_outcome(*old(bank), *old(user), *payer, amount, current_slot) {
            Ok((b, u)) => {
                &&& *final(bank) == b
                &&& *final(user) == u
                &&& r == Ok::<StakeEvent, ErrorCode>(
                    (StakeEvent { user: *payer, amount, total_staked: u.staked_balance }),
                )
            },
            Err(e) => {
                &&& *final(bank) == *old(bank)
                &&& *final(user) == *old(user)
                &&& r == Err::<StakeEvent, ErrorCode>(e)
            },
        },
{
    if !user.owner.same_as(payer) {
        return Err(ErrorCode::Unauthorized);
    }
    if amount == 0 {
        return Err(ErrorCode::InvalidAmount);
    }
    if !bank.is_operational {
        return Err(ErrorCode::NotEligible);
    }
    if user.balance < amount {
        return Err(ErrorCode::InsufficientBalance);
    }
    let mut reward: u64 = 0;
    if user.staked_balance > 0 {
        reward =
        match calculate_staking_reward(user.staked_balance, current_slot, user.stake_slot) {
            Ok(v) => v,
            Err(e) => return Err(e),
        };
        if bank.balance < reward {
            return Err(ErrorCode::BankInsufficientFunds);
        }
    }
    let credited = match user.balance.checked_add(reward) {
        Some(v) => v,
        None => return Err(ErrorCode::ArithmeticOverflow),
    };
    let staked = match user.staked_balance.checked_add(amount) {
        Some(v) => v,
        None => return Err(ErrorCode::ArithmeticOverflow),
    };
    let bank_staked = match bank.staked_balance.checked_add(amount) {
        Some(v) => v,
        None => return Err(ErrorCode::ArithmeticOverflow),
    };
    user.stake_slot = current_slot;
    user.balance = credited - amount;
    user.staked_balance = staked;
    bank.balance = bank.balance - reward;
    bank.staked_balance = bank_staked;
    Ok(StakeEvent { user: *payer, amount, total_staked: staked })
}

/// Unstakes `amount` at tick `current_slot` and pays the reward on it.
/// On failure neither record changes.
pub fn unstake(bank: &mut Bank, user: &mut User, payer: &Identity, amount: u64, current_slot: u64) -> (r:
    Result<UnstakeEvent, ErrorCode>)
    ensures
        match unstake_outcome(*old(bank), *old(user), *payer, amount, current_slot) {
            Ok((b, u)) => {
                &&& *final(bank) == b
                &&& *final(user) == u
                &&& r == Ok::<UnstakeEvent, ErrorCode>(
                    (UnstakeEvent {
                        user: *payer,
                        amount,
                        reward: staking_reward(amount, current_slot, old(user).stake_slot)->Ok_0,
                        remaining_staked: u.staked_balance,
                    }),
                )
            },
            Err(e) => {
                &&& *final(bank) == *old(bank)
                &&& *final(user) == *old(user)
                &&& r == Err::<UnstakeEvent, ErrorCode>(e)
            },
        },
{
    if !user.owner.same_as(payer) {
        return Err(ErrorCode::Unauthorized);
    }
    if amount == 0 {
        return Err(ErrorCode::InvalidAmount);
    }
    if user.staked_balance < amount {
        return Err(ErrorCode::InsufficientBalance);
    }
    let reward = match calculate_staking_reward(amount, current_slot, user.stake_slot) {
        Ok(v) => v,
        Err(e) => return Err(e),
    };
    if bank.balance < reward {
        return Err(ErrorCode::BankInsufficientFunds);
    }
    let returned = match user.balance.checked_add(amount) {
        Some(v) => v,
        None => return Err(ErrorCode::ArithmeticOverflow),
    };
    let credited = match returned.checked_add(reward) {
        Some(v) => v,
        None => return Err(ErrorCode::ArithmeticOverflow),
    };
    let bank_staked = match bank.staked_balance.checked_sub(amount) {
        Some(v) => v,
        None => return Err(ErrorCode::ArithmeticOverflow),
    };
    user.staked_balance = user.staked_balance - amount;
    user.balance = credited;
    bank.staked_balance = bank_staked;
    bank.balance = bank.balance - reward;
    Ok(UnstakeEvent { user: *payer, amount, reward, remaining_staked: user.staked_balance })
}

} // verus!
