use vstd::prelude::*;

verus! {

/// Every way an operation of the ledger can be refused.
#[derive(Clone, Copy, Debug, PartialEq, Eq, Structural)]
pub enum ErrorCode {
    InvalidAddress,
    InvalidAmount,
    InsufficientBalance,
    NotEligible,
    BankInsufficientFunds,
    StakingPeriodTooShort,
    ArithmeticOverflow,
    AmountTooLarge,
    Unauthorized,
    InvalidCollateralRatio,
    BankAlreadyInitialized,
    ActiveLoanExists,
    NoActiveLoan,
    MinimumStakingPeriodNotMet,
}

impl ErrorCode {
    /// The human-readable message of the error.
    pub fn message(&self) -> (r: &'static str) {
        match self {
            ErrorCode::InvalidAddress => "Invalid address provided",
            ErrorCode::InvalidAmount => "Amount must be greater than zero",
            ErrorCode::InsufficientBalance => "Insufficient balance for this operation",
            ErrorCode::NotEligible => "User not eligible for this operation",
            ErrorCode::BankInsufficientFunds => "Bank has insufficient funds",
            ErrorCode::StakingPeriodTooShort => "Staking period too short",
            ErrorCode::ArithmeticOverflow => "Arithmetic overflow detected",
            ErrorCode::AmountTooLarge => "Amount exceeds maximum allowed",
            ErrorCode::Unauthorized => "Unauthorized access",
            ErrorCode::InvalidCollateralRatio => "Invalid collateral ratio",
            ErrorCode::BankAlreadyInitialized => "Bank already initialized",
            ErrorCode::ActiveLoanExists => "User already has active loan",
            ErrorCode::NoActiveLoan => "No active loan found",
            ErrorCode::MinimumStakingPeriodNotMet => "Minimum staking period not met",
        }
    }
}

} // verus!
