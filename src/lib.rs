//! A ledger engine for a shared reserve ("bank") and per-identity accounts:
//! deposits, withdrawals, staking with tick-based rewards, single loans with
//! time-based interest, peer transfers and admin controls, all in checked
//! fixed-width arithmetic with all-or-nothing updates.

pub mod calculators;
pub mod error;
pub mod events;
pub mod state;
pub mod staking;
pub mod lending;
pub mod accounts;
pub mod admin;
pub mod ledger;
pub mod guarantees;

pub use accounts::{
    check_balance, create_user, delete_user, deposit, initialize_bank, transfer_funds, withdraw,
};
pub use admin::{add_bank_funds, toggle_bank_status};
pub use calculators::{calculate_loan_interest, calculate_staking_reward};
pub use error::ErrorCode;
pub use lending::{borrow, repay_loan};
pub use staking::{stake, unstake};
pub use state::{Bank, Identity, User};
