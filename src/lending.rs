use vstd::prelude::*;

use crate::calculators::{calculate_loan_interest, loan_interest, PERCENTAGE_DIVISOR};
use crate::error::ErrorCode;
use crate::events::{BorrowEvent, RepayEvent};
use crate::state::{Bank, Identity, User};

verus! {

/// A loan may reach this percentage of the borrower's spendable balance.
pub const COLLATERAL_RATIO: u64 = 80;

/// The largest loan that `balance` can back: 80% of it, rounded down.
pub open spec fn max_borrow(balance: u64) -> int {
    balance * COLLATERAL_RATIO / PERCENTAGE_DIVISOR as int
}

/// What `borrow` leaves behind: the new bank and user, or the error that
/// refuses it. A user without a loan takes `amount` from the reserve at
/// time `now`, up to the collateral limit of the balance held before.
pub open spec fn borrow_outcome(
    bank: Bank,
    user: User,
    payer: Identity,
    amount: u64,
    now: i64,
) -> Result<(Bank, User), ErrorCode> {
    if user.owner@ != payer@ {
        Err(ErrorCode::Unauthorized)
    } else if amount == 0 {
        Err(ErrorCode::InvalidAmount)
    } else if !bank.is_operational {
        Err(ErrorCode::NotEligible)
    } else if user.lent_balance > 0 {
        Err(ErrorCode::ActiveLoanExists)
    } else if bank.balance < amount {
        Err(ErrorCode::BankInsufficientFunds)
    } else if amount > max_borrow(user.balance) {
        Err(ErrorCode::InvalidCollateralRatio)
    } else if user.balance + amount > u64::MAX {
        Err(ErrorCode::ArithmeticOverflow)
    } else if bank.lent_balance + amount > u64::MAX {
        Err(ErrorCode::ArithmeticOverflow)
    } else {
        Ok(
            (
                Bank {
                    balance: (bank.balance - amount) as u64,
                    lent_balance: (bank.lent_balance + amount) as u64,
                    ..bank
                },
                User {
                    lent_balance: amount,
                    balance: (user.balance + amount) as u64,
                    loan_timestamp: now,
                    ..user
                },
            ),
        )
    }
}

/// The interest owed at time `now` on the user's loan, where it can be
/// computed.
pub open spec fn interest_due(user: User, now: i64) -> Result<u64, ErrorCode> {
    let elapsed = now - user.loan_timestamp;
    if elapsed < i64::MIN || elapsed > i64::MAX {
        Err(ErrorCode::ArithmeticOverflow)
    } else {
        loan_interest(user.lent_balance, elapsed as i64)
    }
}

/// What `repay_loan` leaves behind: the principal and its interest move
/// from the user's balance into the reserve, and the loan is cleared.
pub open spec fn repay_outcome(bank: Bank, user: User, payer: Identity, now: i64) -> Result<
    (Bank, User),
    ErrorCode,
> {
    if user.owner@ != payer@ {
        Err(ErrorCode::Unauthorized)
    } else if user.lent_balance == 0 {
        Err(ErrorCode::NoActiveLoan)
    } else {
        match interest_due(user, now) {
            Err(e) => Err(e),
            Ok(interest) => {
                let total = user.lent_balance + interest;
                if total > u64::MAX {
                    Err(ErrorCode::ArithmeticOverflow)
                } else if user.balance < total {
                    Err(ErrorCode::InsufficientBalance)
                } else if bank.lent_balance < user.lent_balance {
                    Err(ErrorCode::ArithmeticOverflow)
                } else if bank.balance + total > u64::MAX {
                    Err(ErrorCode::ArithmeticOverflow)
                } else {
                    Ok(
                        (
                            Bank {
                                lent_balance: (bank.lent_balance - user.lent_balance) as u64,
                                balance: (bank.balance + total) as u64,
                                ..bank
                            },
                            User {
                                balance: (user.balance - total) as u64,
                                lent_balance: 0,
                                loan_timestamp: 0,
                                ..user
                            },
                        ),
                    )
                }
            },
        }
    }
}

/// Lends `amount` from the reserve to the payer at time `now`.
/// On failure neither record changes.
pub fn borrow(bank: &mut Bank, user: &mut User, payer: &Identity, amount: u64, now: i64) -> (r:
    Result<BorrowEvent, ErrorCode>)
    ensures
        match borrow_outcome(*old(bank), *old(user), *payer, amount, now) {
            Ok((b, u)) => {
                &&& *final(bank) == b
                &&& *final(user) == u
                &&& r == Ok::<BorrowEvent, ErrorCode>(
                    (BorrowEvent { user: *payer, amount, collateral_used: old(user).balance }),
                )
            },
            Err(e) => {
                &&& *final(bank) == *old(bank)
                &&& *final(user) == *old(user)
                &&& r == Err::<BorrowEvent, ErrorCode>(e)
            },
        },
{
    if !user.owner.same_as(payer) {
        return Err(ErrorCode::Unauthorized);
    }
    if amount == 0 {
        return Err(ErrorCode::InvalidAmount);
    }
    if !bank.is_operational {
        return Err(ErrorCode::NotEligible);
    }
    if user.lent_balance > 0 {
        return Err(ErrorCode::ActiveLoanExists);
    }
    if bank.balance < amount {
        return Err(ErrorCode::BankInsufficientFunds);
    }
    let backed = (user.balance as u128) * (COLLATERAL_RATIO as u128);
    let max_amount = backed / (PERCENTAGE_DIVISOR as u128);
    if amount as u128 > max_amount {
        return Err(ErrorCode::InvalidCollateralRatio);
    }
    let credited = match user.balance.checked_add(amount) {
        Some(v) => v,
        None => return Err(ErrorCode::ArithmeticOverflow),
    };
    let bank_lent = match bank.lent_balance.checked_add(amount) {
        Some(v) => v,
        None => return Err(ErrorCode::ArithmeticOverflow),
    };
    user.lent_balance = amount;
    user.balance = credited;
    user.loan_timestamp = now;
    bank.balance = bank.balance - amount;
    bank.lent_balance = bank_lent;
    Ok(BorrowEvent { user: *payer, amount, collateral_used: credited - amount })
}

/// Repays the payer's loan with the interest due at time `now`.
/// On failure neither record changes.
pub fn repay_loan(bank: &mut Bank, user: &mut User, payer: &Identity, now: i64) -> (r: Result<
    RepayEvent,
    ErrorCode,
>)
    ensures
        match repay_outcome(*old(bank), *old(user), *payer, now) {
            Ok((b, u)) => {
                let interest = interest_due(*old(user), now)->Ok_0;
                &&& *final(bank) == b
                &&& *final(user) == u
                &&& r == Ok::<RepayEvent, ErrorCode>(
                    (RepayEvent {
                        user: *payer,
                        principal: old(user).lent_balance,
                        interest,
                        total_repayment: (old(user).lent_balance + interest) as u64,
                    }),
                )
            },
            Err(e) => {
                &&& *final(bank) == *old(bank)
                &&& *final(user) == *old(user)
                &&& r == Err::<RepayEvent, ErrorCode>(e)
            },
        },
{
    if !user.owner.same_as(payer) {
        return Err(ErrorCode::Unauthorized);
    }
    if user.lent_balance == 0 {
        return Err(ErrorCode::NoActiveLoan);
    }
    let time_elapsed = match now.checked_sub(user.loan_timestamp) {
        Some(v) => v,
        None => return Err(ErrorCode::ArithmeticOverflow),
    };
    let interest = match calculate_loan_interest(user.lent_balance, time_elapsed) {
        Ok(v) => v,
        Err(e) => return Err(e),
    };
    let total_repayment = match user.lent_balance.checked_add(interest) {
        Some(v) => v,
        None => return Err(ErrorCode::ArithmeticOverflow),
    };
    if user.balance < total_repayment {
        return Err(ErrorCode::InsufficientBalance);
    }
    let principal = user.lent_balance;
    let bank_lent = match bank.lent_balance.checked_sub(principal) {
        Some(v) => v,
        None => return Err(ErrorCode::ArithmeticOverflow),
    };
    let reserve = match bank.balance.checked_add(total_repayment) {
        Some(v) => v,
        None => return Err(ErrorCode::ArithmeticOverflow),
    };
    bank.lent_balance = bank_lent;
    bank.balance = reserve;
    user.balance = user.balance - total_repayment;
    user.lent_balance = 0;
    user.loan_timestamp = 0;
    Ok(RepayEvent { user: *payer, principal, interest, total_repayment })
}

} // verus!
