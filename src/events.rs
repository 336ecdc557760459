use vstd::prelude::*;

use crate::state::Identity;

verus! {

/// Reported by a balance inquiry.
#[derive(Clone, Copy, Debug, PartialEq, Eq)]
pub struct BalanceChecked {
    pub user: Identity,
    pub balance: u64,
    pub staked_balance: u64,
    pub lent_balance: u64,
}

#[derive(Clone, Copy, Debug, PartialEq, Eq)]
pub struct DepositEvent {
    pub user: Identity,
    pub amount: u64,
    pub new_balance: u64,
}

#[derive(Clone, Copy, Debug, PartialEq, Eq)]
pub struct WithdrawEvent {
    pub user: Identity,
    pub amount: u64,
    pub new_balance: u64,
}

#[derive(Clone, Copy, Debug, PartialEq, Eq)]
pub struct StakeEvent {
    pub user: Identity,
    pub amount: u64,
    pub total_staked: u64,
}

#[derive(Clone, Copy, Debug, PartialEq, Eq)]
pub struct UnstakeEvent {
    pub user: Identity,
    pub amount: u64,
    pub reward: u64,
    pub remaining_staked: u64,
}

#[derive(Clone, Copy, Debug, PartialEq, Eq)]
pub struct BorrowEvent {
    pub user: Identity,
    pub amount: u64,
    pub collateral_used: u64,
}

#[derive(Clone, Copy, Debug, PartialEq, Eq)]
pub struct RepayEvent {
    pub user: Identity,
    pub principal: u64,
    pub interest: u64,
    pub total_repayment: u64,
}

#[derive(Clone, Copy, Debug, PartialEq, Eq)]
pub struct TransferEvent {
    pub from: Identity,
    pub to: Identity,
    pub amount: u64,
}

#[derive(Clone, Copy, Debug, PartialEq, Eq)]
pub struct BankStatusChanged {
    pub admin: Identity,
    pub is_operational: bool,
}

#[derive(Clone, Copy, Debug, PartialEq, Eq)]
pub struct BankFundsAdded {
    pub admin: Identity,
    pub amount: u64,
    pub new_balance: u64,
}

} // verus!
