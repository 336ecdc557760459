use vstd::prelude::*;

use crate::accounts::{
    create_outcome, delete_outcome, deposit_outcome, new_bank, transfer_outcome, withdraw_outcome,
};
use crate::admin::{add_funds_outcome, toggle_outcome};
use crate::error::ErrorCode;
use crate::lending::{borrow_outcome, repay_outcome};
use crate::staking::{stake_outcome, unstake_outcome};
use crate::state::{Bank, Identity, User};

verus! {

/// One operation on a ledger of a bank and its users, the users addressed
/// by their position.
pub enum Operation {
    CreateUser { payer: Identity },
    DeleteUser { index: usize, payer: Identity },
    Deposit { index: usize, payer: Identity, amount: u64 },
    Withdraw { index: usize, payer: Identity, amount: u64 },
    Stake { index: usize, payer: Identity, amount: u64, current_slot: u64 },
    Unstake { index: usize, payer: Identity, amount: u64, current_slot: u64 },
    Borrow { index: usize, payer: Identity, amount: u64, now: i64 },
    RepayLoan { index: usize, payer: Identity, now: i64 },
    TransferFunds { from: usize, to: usize, payer: Identity, amount: u64 },
    ToggleBankStatus { admin: Identity },
    AddBankFunds { admin: Identity, amount: u64 },
}

/// The sum of one figure over all users.
pub open spec fn total_of(users: Seq<User>, figure: spec_fn(User) -> u64) -> int
    decreases users.len(),
{
    if users.len() == 0 {
        0
    } else {
        total_of(users.drop_last(), figure) + figure(users.last())
    }
}

pub open spec fn staked_of(user: User) -> u64 {
    user.staked_balance
}

pub open spec fn lent_of(user: User) -> u64 {
    user.lent_balance
}

/// The bank's staked and lent totals are the sums of the users' own.
pub open spec fn totals_match(bank: Bank, users: Seq<User>) -> bool {
    &&& bank.staked_balance == total_of(users, |u: User| staked_of(u))
    &&& bank.lent_balance == total_of(users, |u: User| lent_of(u))
}

/// The ledger after one operation, or the error that refused it. An
/// operation that names a position without a user, or the same user twice,
/// is refused with `InvalidAddress`.
pub open spec fn ledger_step(bank: Bank, users: Seq<User>, op: Operation) -> Result<
    (Bank, Seq<User>),
    ErrorCode,
> {
    match op {
        Operation::CreateUser { payer } => match create_outcome(bank, payer) {
            Ok((b, u)) => Ok((b, users.push(u))),
            Err(e) => Err(e),
        },
        Operation::DeleteUser { index, payer } => if index >= users.len() {
            Err(ErrorCode::InvalidAddress)
        } else {
            match delete_outcome(bank, users[index as int], payer) {
                Ok(b) => Ok((b, users.remove(index as int))),
                Err(e) => Err(e),
            }
        },
        Operation::Deposit { index, payer, amount } => if index >= users.len() {
            Err(ErrorCode::InvalidAddress)
        } else {
            match deposit_outcome(bank, users[index as int], payer, amount) {
                Ok(u) => Ok((bank, users.update(index as int, u))),
                Err(e) => Err(e),
            }
        },
        Operation::Withdraw { index, payer, amount } => if index >= users.len() {
            Err(ErrorCode::InvalidAddress)
        } else {
            match withdraw_outcome(bank, users[index as int], payer, amount) {
                Ok(u) => Ok((bank, users.update(index as int, u))),
                Err(e) => Err(e),
            }
        },
        Operation::Stake { index, payer, amount, current_slot } => if index >= users.len() {
            Err(ErrorCode::InvalidAddress)
        } else {
            match stake_outcome(bank, users[index as int], payer, amount, current_slot) {
                Ok((b, u)) => Ok((b, users.update(index as int, u))),
                Err(e) => Err(e),
            }
        },
        Operation::Unstake { index, payer, amount, current_slot } => if index >= users.len() {
            Err(ErrorCode::InvalidAddress)
        } else {
            match unstake_outcome(bank, users[index as int], payer, amount, current_slot) {
                Ok((b, u)) => Ok((b, users.update(index as int, u))),
                Err(e) => Err(e),
            }
        },
        Operation::Borrow { index, payer, amount, now } => if index >= users.len() {
            Err(ErrorCode::InvalidAddress)
        } else {
            match borrow_outcome(bank, users[index as int], payer, amount, now) {
                Ok((b, u)) => Ok((b, users.update(index as int, u))),
                Err(e) => Err(e),
            }
        },
        Operation::RepayLoan { index, payer, now } => if index >= users.len() {
            Err(ErrorCode::InvalidAddress)
        } else {
            match repay_outcome(bank, users[index as int], payer, now) {
                Ok((b, u)) => Ok((b, users.update(index as int, u))),
                Err(e) => Err(e),
            }
        },
        Operation::TransferFunds { from, to, payer, amount } => if from >= users.len() || to
            >= users.len() || from == to {
            Err(ErrorCode::InvalidAddress)
        } else {
            match transfer_outcome(users[from as int], users[to as int], payer, amount) {
                Ok((f, t)) => Ok((bank, users.update(from as int, f).update(to as int, t))),
                Err(e) => Err(e),
            }
        },
        Operation::ToggleBankStatus { admin } => match toggle_outcome(bank, admin) {
            Ok(b) => Ok((b, users)),
            Err(e) => Err(e),
        },
        Operation::AddBankFunds { admin, amount } => match add_funds_outcome(bank, admin, amount) {
            Ok(b) => Ok((b, users)),
            Err(e) => Err(e),
        },
    }
}

/// The ledger after a sequence of operations. A refused operation changes
/// nothing.
pub open spec fn ledger_run(bank: Bank, users: Seq<User>, ops: Seq<Operation>) -> (Bank, Seq<
    User,
>)
    decreases ops.len(),
{
    if ops.len() == 0 {
        (bank, users)
    } else {
        let (b, u) = ledger_run(bank, users, ops.drop_last());
        match ledger_step(b, u, ops.last()) {
            Ok(next) => next,
            Err(_) => (b, u),
        }
    }
}

/// Replacing one user changes a total by the change in that user's figure.
pub proof fn lemma_total_of_update(users: Seq<User>, i: int, user: User, figure: spec_fn(User) -> u64)
    requires
        0 <= i < users.len(),
    ensures
        total_of(users.update(i, user), figure) == total_of(users, figure) - figure(users[i])
            + figure(user),
    decreases users.len(),
{
    let updated = users.update(i, user);
    if i == users.len() - 1 {
        assert(updated.drop_last() =~= users.drop_last());
    } else {
        lemma_total_of_update(users.drop_last(), i, user, figure);
        assert(updated.drop_last() =~= users.drop_last().update(i, user));
    }
}

/// Removing one user takes that user's figure off a total.
pub proof fn lemma_total_of_remove(users: Seq<User>, i: int, figure: spec_fn(User) -> u64)
    requires
        0 <= i < users.len(),
    ensures
        total_of(users.remove(i), figure) == total_of(users, figure) - figure(users[i]),
    decreases users.len(),
{
    let removed = users.remove(i);
    if i == users.len() - 1 {
        assert(removed =~= users.drop_last());
    } else {
        lemma_total_of_remove(users.drop_last(), i, figure);
        assert(removed.drop_last() =~= users.drop_last().remove(i));
    }
}

/// Adding a user adds that user's figure to a total.
pub proof fn lemma_total_of_push(users: Seq<User>, user: User, figure: spec_fn(User) -> u64)
    ensures
        total_of(users.push(user), figure) == total_of(users, figure) + figure(user),
{
    assert(users.push(user).drop_last() =~= users);
}

/// Replacing user `i` by `user` while the bank's totals move by the change
/// in that user's staked and lent figures keeps the totals matching.
proof fn lemma_update_keeps_totals(bank: Bank, users: Seq<User>, i: int, b: Bank, user: User)
    requires
        totals_match(bank, users),
        0 <= i < users.len(),
        b.staked_balance - bank.staked_balance == user.staked_balance
            - users[i].staked_balance,
        b.lent_balance - bank.lent_balance == user.lent_balance - users[i].lent_balance,
    ensures
        totals_match(b, users.update(i, user)),
{
    lemma_total_of_update(users, i, user, |u: User| staked_of(u));
    lemma_total_of_update(users, i, user, |u: User| lent_of(u));
}

/// Every operation that succeeds keeps the bank's staked and lent totals
/// equal to the sums of the users' own.
pub proof fn ledger_step_keeps_totals(bank: Bank, users: Seq<User>, op: Operation)
    requires
        totals_match(bank, users),
        ledger_step(bank, users, op) is Ok,
    ensures
        totals_match(ledger_step(bank, users, op)->Ok_0.0, ledger_step(bank, users, op)->Ok_0.1),
{
    match op {
        Operation::CreateUser { payer } => {
            let u = create_outcome(bank, payer)->Ok_0.1;
            lemma_total_of_push(users, u, |u: User| staked_of(u));
            lemma_total_of_push(users, u, |u: User| lent_of(u));
        },
        Operation::DeleteUser { index, payer } => {
            lemma_total_of_remove(users, index as int, |u: User| staked_of(u));
            lemma_total_of_remove(users, index as int, |u: User| lent_of(u));
        },
        Operation::Deposit { index, payer, amount } => {
            let u = deposit_outcome(bank, users[index as int], payer, amount)->Ok_0;
            lemma_update_keeps_totals(bank, users, index as int, bank, u);
        },
        Operation::Withdraw { index, payer, amount } => {
            let u = withdraw_outcome(bank, users[index as int], payer, amount)->Ok_0;
            lemma_update_keeps_totals(bank, users, index as int, bank, u);
        },
        Operation::Stake { index, payer, amount, current_slot } => {
            let (b, u) = stake_outcome(bank, users[index as int], payer, amount, current_slot)->Ok_0;
            lemma_update_keeps_totals(bank, users, index as int, b, u);
        },
        Operation::Unstake { index, payer, amount, current_slot } => {
            let (b, u) = unstake_outcome(
                bank,
                users[index as int],
                payer,
                amount,
                current_slot,
            )->Ok_0;
            lemma_update_keeps_totals(bank, users, index as int, b, u);
        },
        Operation::Borrow { index, payer, amount, now } => {
            let (b, u) = borrow_outcome(bank, users[index as int], payer, amount, now)->Ok_0;
            lemma_update_keeps_totals(bank, users, index as int, b, u);
        },
        Operation::RepayLoan { index, payer, now } => {
            let (b, u) = repay_outcome(bank, users[index as int], payer, now)->Ok_0;
            lemma_update_keeps_totals(bank, users, index as int, b, u);
        },
        Operation::TransferFunds { from, to, payer, amount } => {
            let (f, t) = transfer_outcome(users[from as int], users[to as int], payer, amount)->Ok_0;
            lemma_update_keeps_totals(bank, users, from as int, bank, f);
            lemma_update_keeps_totals(bank, users.update(from as int, f), to as int, bank, t);
        },
        Operation::ToggleBankStatus { admin } => {},
        Operation::AddBankFunds { admin, amount } => {},
    }
}

/// Whatever sequence of operations runs on a ledger whose totals match,
/// they still match afterwards.
pub proof fn ledger_run_keeps_totals(bank: Bank, users: Seq<User>, ops: Seq<Operation>)
    requires
        totals_match(bank, users),
    ensures
        totals_match(ledger_run(bank, users, ops).0, ledger_run(bank, users, ops).1),
    decreases ops.len(),
{
    if ops.len() > 0 {
        ledger_run_keeps_totals(bank, users, ops.drop_last());
        let (b, u) = ledger_run(bank, users, ops.drop_last());
        if ledger_step(b, u, ops.last()) is Ok {
            ledger_step_keeps_totals(b, u, ops.last());
        }
    }
}

/// A ledger that starts as a fresh bank without users keeps its totals
/// matching after every sequence of operations.
pub proof fn fresh_ledger_keeps_totals(admin: Identity, ops: Seq<Operation>)
    ensures
        totals_match(
            ledger_run(new_bank(admin), Seq::empty(), ops).0,
            ledger_run(new_bank(admin), Seq::empty(), ops).1,
        ),
{
    ledger_run_keeps_totals(new_bank(admin), Seq::empty(), ops);
}

/// Every user of the ledger has a loan exactly when it carries a loan
/// timestamp.
pub open spec fn loans_consistent(users: Seq<User>) -> bool {
    forall|i: int| 0 <= i < users.len() ==> (#[trigger] users[i]).loan_consistent()
}

/// A borrow whose clock reads 0, the one time stamp that cannot tell a loan
/// from none.
pub open spec fn borrows_at_time_zero(op: Operation) -> bool {
    match op {
        Operation::Borrow { now, .. } => now == 0,
        _ => false,
    }
}

/// Every operation that succeeds, where a borrow's clock does not read 0,
/// keeps each user's loan and loan timestamp present or absent together.
pub proof fn ledger_step_keeps_loans_consistent(bank: Bank, users: Seq<User>, op: Operation)
    requires
        loans_consistent(users),
        !borrows_at_time_zero(op),
        ledger_step(bank, users, op) is Ok,
    ensures
        loans_consistent(ledger_step(bank, users, op)->Ok_0.1),
{
    let after = ledger_step(bank, users, op)->Ok_0.1;
    match op {
        Operation::DeleteUser { index, payer } => {
            assert forall|i: int| 0 <= i < after.len() implies (#[trigger] after[i]).loan_consistent() by {
                if i < index {
                    assert(after[i] == users[i]);
                } else {
                    assert(after[i] == users[i + 1]);
                }
            }
        },
        _ => {
            assert forall|i: int| 0 <= i < after.len() implies (#[trigger] after[i]).loan_consistent() by {
                if i < users.len() {
                    assert(users[i].loan_consistent());
                }
            }
        },
    }
}

/// Whatever sequence of operations runs on a ledger whose users' loans are
/// consistent, with no borrow at time 0, they stay consistent.
pub proof fn ledger_run_keeps_loans_consistent(bank: Bank, users: Seq<User>, ops: Seq<Operation>)
    requires
        loans_consistent(users),
        forall|k: int| 0 <= k < ops.len() ==> !borrows_at_time_zero(#[trigger] ops[k]),
    ensures
        loans_consistent(ledger_run(bank, users, ops).1),
    decreases ops.len(),
{
    if ops.len() > 0 {
        let rest = ops.drop_last();
        assert forall|k: int| 0 <= k < rest.len() implies !borrows_at_time_zero(#[trigger] rest[k]) by {
            assert(rest[k] == ops[k]);
        }
        ledger_run_keeps_loans_consistent(bank, users, rest);
        let (b, u) = ledger_run(bank, users, rest);
        assert(!borrows_at_time_zero(ops[ops.len() - 1]));
        if ledger_step(b, u, ops.last()) is Ok {
            ledger_step_keeps_loans_consistent(b, u, ops.last());
        }
    }
}

} // verus!
