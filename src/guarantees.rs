use vstd::prelude::*;

use crate::accounts::{deposit_outcome, transfer_outcome, withdraw_outcome};
use crate::admin::{add_funds_outcome, toggle_outcome};
use crate::calculators::staking_reward;
use crate::error::ErrorCode;
use crate::lending::{borrow_outcome, max_borrow};
use crate::staking::{stake_outcome, unstake_outcome};
use crate::state::{Bank, Identity, User};

verus! {

/// A deposit followed by a withdrawal of the same amount, with nothing in
/// between, succeeds and leaves the account as it was.
pub proof fn deposit_then_withdraw_restores(bank: Bank, user: User, payer: Identity, amount: u64)
    requires
        deposit_outcome(bank, user, payer, amount) is Ok,
    ensures
        withdraw_outcome(bank, deposit_outcome(bank, user, payer, amount)->Ok_0, payer, amount)
            == Ok::<User, ErrorCode>(user),
{
}

/// A withdrawal followed by a deposit of the same amount, both succeeding,
/// leaves the account as it was.
pub proof fn withdraw_then_deposit_restores(bank: Bank, user: User, payer: Identity, amount: u64)
    requires
        withdraw_outcome(bank, user, payer, amount) is Ok,
        deposit_outcome(bank, withdraw_outcome(bank, user, payer, amount)->Ok_0, payer, amount) is Ok,
    ensures
        deposit_outcome(bank, withdraw_outcome(bank, user, payer, amount)->Ok_0, payer, amount)
            == Ok::<User, ErrorCode>(user),
{
}

/// No ticks since the checkpoint earn no reward, whatever is staked.
pub proof fn no_elapsed_ticks_no_reward(staked_amount: u64, slot: u64)
    ensures
        staking_reward(staked_amount, slot, slot) == Ok::<u64, ErrorCode>(0),
{
}

/// Staking again at the tick of the checkpoint pays no reward: the balance
/// drops by exactly the amount staked and the reserve is untouched.
pub proof fn stake_at_checkpoint_pays_nothing(
    bank: Bank,
    user: User,
    payer: Identity,
    amount: u64,
)
    requires
        stake_outcome(bank, user, payer, amount, user.stake_slot) is Ok,
    ensures
        stake_outcome(bank, user, payer, amount, user.stake_slot)->Ok_0.1.balance == user.balance
            - amount,
        stake_outcome(bank, user, payer, amount, user.stake_slot)->Ok_0.0.balance == bank.balance,
{
}

/// Unstaking at the tick of the checkpoint pays no reward: the balance grows
/// by exactly the amount unstaked and the reserve is untouched.
pub proof fn unstake_at_checkpoint_pays_nothing(
    bank: Bank,
    user: User,
    payer: Identity,
    amount: u64,
)
    requires
        unstake_outcome(bank, user, payer, amount, user.stake_slot) is Ok,
    ensures
        unstake_outcome(bank, user, payer, amount, user.stake_slot)->Ok_0.1.balance == user.balance
            + amount,
        unstake_outcome(bank, user, payer, amount, user.stake_slot)->Ok_0.0.balance
            == bank.balance,
{
}

/// While a loan is outstanding no second loan is granted; once the payer
/// owns the account, the amount is nonzero and the bank is operational, the
/// refusal is `ActiveLoanExists`. A refused borrow changes nothing (see
/// `borrow`).
pub proof fn second_borrow_refused(bank: Bank, user: User, payer: Identity, amount: u64, now: i64)
    requires
        user.lent_balance > 0,
    ensures
        borrow_outcome(bank, user, payer, amount, now) is Err,
        user.owner@ == payer@ && amount > 0 && bank.is_operational ==> borrow_outcome(
            bank,
            user,
            payer,
            amount,
            now,
        ) == Err::<(Bank, User), ErrorCode>(ErrorCode::ActiveLoanExists),
{
}

/// A loan above 80% of the balance is never granted; where every check
/// before the collateral check passes, the refusal is
/// `InvalidCollateralRatio`.
pub proof fn over_collateral_borrow_refused(
    bank: Bank,
    user: User,
    payer: Identity,
    amount: u64,
    now: i64,
)
    requires
        amount > max_borrow(user.balance),
    ensures
        borrow_outcome(bank, user, payer, amount, now) is Err,
        user.owner@ == payer@ && amount > 0 && bank.is_operational && user.lent_balance == 0
            && bank.balance >= amount ==> borrow_outcome(
            bank,
            user,
            payer,
            amount,
            now,
        ) == Err::<(Bank, User), ErrorCode>(ErrorCode::InvalidCollateralRatio),
{
}

/// A transfer of more than the sender holds never succeeds; once the payer
/// owns the sending account, the refusal is `InsufficientBalance`. A refused
/// transfer changes neither account (see `transfer_funds`).
pub proof fn overdrawn_transfer_refused(from: User, to: User, payer: Identity, amount: u64)
    requires
        amount > from.balance,
    ensures
        transfer_outcome(from, to, payer, amount) is Err,
        from.owner@ == payer@ ==> transfer_outcome(from, to, payer, amount) == Err::<
            (User, User),
            ErrorCode,
        >(ErrorCode::InsufficientBalance),
{
}

/// A transfer to the sender's own identity never succeeds; once the payer
/// owns the account and the amount is nonzero and covered, the refusal is
/// `InvalidAddress`.
pub proof fn self_transfer_refused(from: User, to: User, payer: Identity, amount: u64)
    requires
        from.owner@ == to.owner@,
    ensures
        transfer_outcome(from, to, payer, amount) is Err,
        from.owner@ == payer@ && 0 < amount <= from.balance ==> transfer_outcome(
            from,
            to,
            payer,
            amount,
        ) == Err::<(User, User), ErrorCode>(ErrorCode::InvalidAddress),
{
}

/// Only the bank's admin may suspend, resume or fund it; anyone else is
/// refused with `Unauthorized`, which changes nothing (see
/// `toggle_bank_status` and `add_bank_funds`).
pub proof fn admin_operations_refuse_others(bank: Bank, caller: Identity, amount: u64)
    requires
        caller@ != bank.admin@,
    ensures
        toggle_outcome(bank, caller) == Err::<Bank, ErrorCode>(ErrorCode::Unauthorized),
        add_funds_outcome(bank, caller, amount) == Err::<Bank, ErrorCode>(ErrorCode::Unauthorized),
{
}

} // verus!
