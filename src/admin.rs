use vstd::prelude::*;

use crate::error::ErrorCode;
use crate::events::{BankFundsAdded, BankStatusChanged};
use crate::state::{Bank, Identity};

verus! {

/// What `toggle_bank_status` makes of the bank.
pub open spec fn toggle_outcome(bank: Bank, admin: Identity) -> Result<Bank, ErrorCode> {
    if bank.admin@ != admin@ {
        Err(ErrorCode::Unauthorized)
    } else {
        Ok(Bank { is_operational: !bank.is_operational, ..bank })
    }
}

/// What `add_bank_funds` makes of the bank.
pub open spec fn add_funds_outcome(bank: Bank, admin: Identity, amount: u64) -> Result<
    Bank,
    ErrorCode,
> {
    if bank.admin@ != admin@ {
        Err(ErrorCode::Unauthorized)
    } else if amount == 0 {
        Err(ErrorCode::InvalidAmount)
    } else if bank.balance + amount > u64::MAX {
        Err(ErrorCode::ArithmeticOverflow)
    } else {
        Ok(Bank { balance: (bank.balance + amount) as u64, ..bank })
    }
}

/// Switches the bank between operational and suspended; for its admin
/// alone. On failure the bank does not change.
pub fn toggle_bank_status(bank: &mut Bank, admin: &Identity) -> (r: Result<
    BankStatusChanged,
    ErrorCode,
>)
    ensures
        match toggle_outcome(*old(bank), *admin) {
            Ok(b) => {
                &&& *final(bank) == b
                &&& r == Ok::<BankStatusChanged, ErrorCode>(
                    (BankStatusChanged { admin: *admin, is_operational: b.is_operational }),
                )
            },
            Err(e) => {
                &&& *final(bank) == *old(bank)
                &&& r == Err::<BankStatusChanged, ErrorCode>(e)
            },
        },
{
    if !admin.same_as(&bank.admin) {
        return Err(ErrorCode::Unauthorized);
    }
    bank.is_operational = !bank.is_operational;
    Ok(BankStatusChanged { admin: *admin, is_operational: bank.is_operational })
}

/// Adds `amount` to the reserve; for the bank's admin alone. On failure the
/// bank does not change.
pub fn add_bank_funds(bank: &mut Bank, admin: &Identity, amount: u64) -> (r: Result<
    BankFundsAdded,
    ErrorCode,
>)
    ensures
        match add_funds_outcome(*old(bank), *admin, amount) {
            Ok(b) => {
                &&& *final(bank) == b
                &&& r == Ok::<BankFundsAdded, ErrorCode>(
                    (BankFundsAdded { admin: *admin, amount, new_balance: b.balance }),
                )
            },
            Err(e) => {
                &&& *final(bank) == *old(bank)
                &&& r == Err::<BankFundsAdded, ErrorCode>(e)
            },
        },
{
    if !admin.same_as(&bank.admin) {
        return Err(ErrorCode::Unauthorized);
    }
    if amount == 0 {
        return Err(ErrorCode::InvalidAmount);
    }
    let balance = match bank.balance.checked_add(amount) {
        Some(v) => v,
        None => return Err(ErrorCode::ArithmeticOverflow),
    };
    bank.balance = balance;
    Ok(BankFundsAdded { admin: *admin, amount, new_balance: balance })
}

} // verus!
