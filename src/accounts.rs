use vstd::prelude::*;

use crate::error::ErrorCode;
use crate::events::{BalanceChecked, DepositEvent, TransferEvent, WithdrawEvent};
use crate::state::{Bank, Identity, User};

verus! {

/// The largest single deposit: a million tokens of nine decimals.
pub const MAX_DEPOSIT_AMOUNT: u64 = 1_000_000 * 1_000_000_000;

/// The reserve a new bank starts with: five thousand tokens of nine decimals.
pub const INITIAL_BANK_BALANCE: u64 = 5000 * 1_000_000_000;

/// A fresh, operational bank run by `admin`.
pub open spec fn new_bank(admin: Identity) -> Bank {
    Bank {
        admin,
        balance: INITIAL_BANK_BALANCE,
        staked_balance: 0,
        lent_balance: 0,
        total_users: 0,
        is_operational: true,
    }
}

/// A fresh account of `owner`, holding nothing.
pub open spec fn new_user(owner: Identity) -> User {
    User {
        owner,
        balance: 0,
        staked_balance: 0,
        stake_slot: 0,
        lent_balance: 0,
        loan_timestamp: 0,
    }
}

/// What `create_user` makes of the bank, with the new account.
pub open spec fn create_outcome(bank: Bank, payer: Identity) -> Result<(Bank, User), ErrorCode> {
    if bank.total_users + 1 > u64::MAX {
        Err(ErrorCode::ArithmeticOverflow)
    } else {
        Ok((Bank { total_users: (bank.total_users + 1) as u64, ..bank }, new_user(payer)))
    }
}

/// What `delete_user` makes of the bank.
pub open spec fn delete_outcome(bank: Bank, user: User, payer: Identity) -> Result<
    Bank,
    ErrorCode,
> {
    if user.owner@ != payer@ {
        Err(ErrorCode::Unauthorized)
    } else if !user.is_empty() {
        Err(ErrorCode::InsufficientBalance)
    } else if bank.total_users == 0 {
        Err(ErrorCode::ArithmeticOverflow)
    } else {
        Ok(Bank { total_users: (bank.total_users - 1) as u64, ..bank })
    }
}

/// What `deposit` makes of the user's record.
pub open spec fn deposit_outcome(bank: Bank, user: User, payer: Identity, amount: u64) -> Result<
    User,
    ErrorCode,
> {
    if user.owner@ != payer@ {
        Err(ErrorCode::Unauthorized)
    } else if amount == 0 {
        Err(ErrorCode::InvalidAmount)
    } else if amount > MAX_DEPOSIT_AMOUNT {
        Err(ErrorCode::AmountTooLarge)
    } else if !bank.is_operational {
        Err(ErrorCode::NotEligible)
    } else if user.balance + amount > u64::MAX {
        Err(ErrorCode::ArithmeticOverflow)
    } else {
        Ok(User { balance: (user.balance + amount) as u64, ..user })
    }
}

/// What `withdraw` makes of the user's record.
pub open spec fn withdraw_outcome(bank: Bank, user: User, payer: Identity, amount: u64) -> Result<
    User,
    ErrorCode,
> {
    if user.owner@ != payer@ {
        Err(ErrorCode::Unauthorized)
    } else if amount == 0 {
        Err(ErrorCode::InvalidAmount)
    } else if !bank.is_operational {
        Err(ErrorCode::NotEligible)
    } else if user.balance < amount {
        Err(ErrorCode::InsufficientBalance)
    } else {
        Ok(User { balance: (user.balance - amount) as u64, ..user })
    }
}

/// What `transfer_funds` makes of the sender's and the receiver's records.
pub open spec fn transfer_outcome(from: User, to: User, payer: Identity, amount: u64) -> Result<
    (User, User),
    ErrorCode,
> {
    if from.owner@ != payer@ {
        Err(ErrorCode::Unauthorized)
    } else if amount == 0 {
        Err(ErrorCode::InvalidAmount)
    } else if from.balance < amount {
        Err(ErrorCode::InsufficientBalance)
    } else if from.owner@ == to.owner@ {
        Err(ErrorCode::InvalidAddress)
    } else if to.balance + amount > u64::MAX {
        Err(ErrorCode::ArithmeticOverflow)
    } else {
        Ok(
            (
                User { balance: (from.balance - amount) as u64, ..from },
                User { balance: (to.balance + amount) as u64, ..to },
            ),
        )
    }
}

/// Creates the bank, run by `admin`, with its initial reserve.
pub fn initialize_bank(admin: &Identity) -> (r: Bank)
    ensures
        r == new_bank(*admin),
{
    Bank {
        admin: *admin,
        balance: INITIAL_BANK_BALANCE,
        staked_balance: 0,
        lent_balance: 0,
        total_users: 0,
        is_operational: true,
    }
}

/// Opens an empty account for `payer` and counts it in the bank.
/// On failure the bank does not change.
pub fn create_user(bank: &mut Bank, payer: &Identity) -> (r: Result<User, ErrorCode>)
    ensures
        match create_outcome(*old(bank), *payer) {
            Ok((b, u)) => {
                &&& *final(bank) == b
                &&& r == Ok::<User, ErrorCode>(u)
            },
            Err(e) => {
                &&& *final(bank) == *old(bank)
                &&& r == Err::<User, ErrorCode>(e)
            },
        },
{
    let total = match bank.total_users.checked_add(1) {
        Some(v) => v,
        None => return Err(ErrorCode::ArithmeticOverflow),
    };
    bank.total_users = total;
    Ok(
        User {
            owner: *payer,
            balance: 0,
            staked_balance: 0,
            stake_slot: 0,
            lent_balance: 0,
            loan_timestamp: 0,
        },
    )
}

/// Closes the payer's account, which must hold nothing and owe nothing,
/// and uncounts it in the bank. On failure the bank does not change.
pub fn delete_user(bank: &mut Bank, user: &User, payer: &Identity) -> (r: Result<(), ErrorCode>)
    ensures
        match delete_outcome(*old(bank), *user, *payer) {
            Ok(b) => {
                &&& *final(bank) == b
                &&& r == Ok::<(), ErrorCode>(())
            },
            Err(e) => {
                &&& *final(bank) == *old(bank)
                &&& r == Err::<(), ErrorCode>(e)
            },
        },
{
    if !user.owner.same_as(payer) {
        return Err(ErrorCode::Unauthorized);
    }
    if user.balance > 0 || user.staked_balance > 0 || user.lent_balance > 0 {
        return Err(ErrorCode::InsufficientBalance);
    }
    let total = match bank.total_users.checked_sub(1) {
        Some(v) => v,
        None => return Err(ErrorCode::ArithmeticOverflow),
    };
    bank.total_users = total;
    Ok(())
}

/// Adds `amount` to the payer's spendable balance. On failure the record
/// does not change.
pub fn deposit(bank: &Bank, user: &mut User, payer: &Identity, amount: u64) -> (r: Result<
    DepositEvent,
    ErrorCode,
>)
    ensures
        match deposit_outcome(*bank, *old(user), *payer, amount) {
            Ok(u) => {
                &&& *final(user) == u
                &&& r == Ok::<DepositEvent, ErrorCode>(
                    (DepositEvent { user: *payer, amount, new_balance: u.balance }),
                )
            },
            Err(e) => {
                &&& *final(user) == *old(user)
                &&& r == Err::<DepositEvent, ErrorCode>(e)
            },
        },
{
    if !user.owner.same_as(payer) {
        return Err(ErrorCode::Unauthorized);
    }
    if amount == 0 {
        return Err(ErrorCode::InvalidAmount);
    }
    if amount > MAX_DEPOSIT_AMOUNT {
        return Err(ErrorCode::AmountTooLarge);
    }
    if !bank.is_operational {
        return Err(ErrorCode::NotEligible);
    }
    let balance = match user.balance.checked_add(amount) {
        Some(v) => v,
        None => return Err(ErrorCode::ArithmeticOverflow),
    };
    user.balance = balance;
    Ok(DepositEvent { user: *payer, amount, new_balance: balance })
}

/// Takes `amount` from the payer's spendable balance. On failure the record
/// does not change.
pub fn withdraw(bank: &Bank, user: &mut User, payer: &Identity, amount: u64) -> (r: Result<
    WithdrawEvent,
    ErrorCode,
>)
    ensures
        match withdraw_outcome(*bank, *old(user), *payer, amount) {
            Ok(u) => {
                &&& *final(user) == u
                &&& r == Ok::<WithdrawEvent, ErrorCode>(
                    (WithdrawEvent { user: *payer, amount, new_balance: u.balance }),
                )
            },
            Err(e) => {
                &&& *final(user) == *old(user)
                &&& r == Err::<WithdrawEvent, ErrorCode>(e)
            },
        },
{
    if !user.owner.same_as(payer) {
        return Err(ErrorCode::Unauthorized);
    }
    if amount == 0 {
        return Err(ErrorCode::InvalidAmount);
    }
    if !bank.is_operational {
        return Err(ErrorCode::NotEligible);
    }
    if user.balance < amount {
        return Err(ErrorCode::InsufficientBalance);
    }
    user.balance = user.balance - amount;
    Ok(WithdrawEvent { user: *payer, amount, new_balance: user.balance })
}

/// Reports the balances of an account without changing it.
pub fn check_balance(user: &User) -> (r: BalanceChecked)
    ensures
        r == (BalanceChecked {
            user: user.owner,
            balance: user.balance,
            staked_balance: user.staked_balance,
            lent_balance: user.lent_balance,
        }),
{
    BalanceChecked {
        user: user.owner,
        balance: user.balance,
        staked_balance: user.staked_balance,
        lent_balance: user.lent_balance,
    }
}

/// Moves `amount` from the payer's account to another identity's account.
/// The bank is not involved. On failure neither record changes.
pub fn transfer_funds(from_user: &mut User, to_user: &mut User, payer: &Identity, amount: u64) -> (r:
    Result<TransferEvent, ErrorCode>)
    ensures
        match transfer_outcome(*old(from_user), *old(to_user), *payer, amount) {
            Ok((f, t)) => {
                &&& *final(from_user) == f
                &&& *final(to_user) == t
                &&& r == Ok::<TransferEvent, ErrorCode>(
                    (TransferEvent { from: f.owner, to: t.owner, amount }),
                )
            },
            Err(e) => {
                &&& *final(from_user) == *old(from_user)
                &&& *final(to_user) == *old(to_user)
                &&& r == Err::<TransferEvent, ErrorCode>(e)
            },
        },
{
    if !from_user.owner.same_as(payer) {
        return Err(ErrorCode::Unauthorized);
    }
    if amount == 0 {
        return Err(ErrorCode::InvalidAmount);
    }
    if from_user.balance < amount {
        return Err(ErrorCode::InsufficientBalance);
    }
    if from_user.owner.same_as(&to_user.owner) {
        return Err(ErrorCode::InvalidAddress);
    }
    let credited = match to_user.balance.checked_add(amount) {
        Some(v) => v,
        None => return Err(ErrorCode::ArithmeticOverflow),
    };
    from_user.balance = from_user.balance - amount;
    to_user.balance = credited;
    Ok(TransferEvent { from: from_user.owner, to: to_user.owner, amount })
}

} // verus!
