use banking::calculators::{SECONDS_PER_YEAR, SLOTS_PER_YEAR};
use banking::{calculate_loan_interest, calculate_staking_reward, ErrorCode};

#[test]
fn staking_reward_for_one_year_is_five_percent() {
    assert_eq!(calculate_staking_reward(1000, SLOTS_PER_YEAR, 0), Ok(50));
}

#[test]
fn staking_reward_rounds_down() {
    // 999 * 500 * SLOTS_PER_YEAR / (10000 * SLOTS_PER_YEAR) = 49.95
    assert_eq!(calculate_staking_reward(999, SLOTS_PER_YEAR + 7, 7), Ok(49));
}

#[test]
fn staking_reward_for_half_a_year() {
    assert_eq!(calculate_staking_reward(4000, SLOTS_PER_YEAR / 2, 0), Ok(100));
}

#[test]
fn staking_reward_with_no_elapsed_ticks_is_zero() {
    assert_eq!(calculate_staking_reward(1_000_000_000, 42, 42), Ok(0));
    assert_eq!(calculate_staking_reward(0, 42, 0), Ok(0));
}

#[test]
fn staking_reward_with_clock_going_back_overflows() {
    assert_eq!(calculate_staking_reward(1000, 5, 6), Err(ErrorCode::ArithmeticOverflow));
}

#[test]
fn staking_reward_with_no_elapsed_ticks_is_zero_for_any_stake() {
    assert_eq!(calculate_staking_reward(u64::MAX, 0, 0), Ok(0));
    assert_eq!(calculate_staking_reward(100_000_000_000_000_000, 9, 9), Ok(0));
}

#[test]
fn staking_reward_for_500_tokens_over_a_year() {
    assert_eq!(
        calculate_staking_reward(500_000_000_000, 1000 + SLOTS_PER_YEAR, 1000),
        Ok(25_000_000_000)
    );
}

#[test]
fn staking_reward_with_product_past_u128_overflows() {
    assert_eq!(calculate_staking_reward(u64::MAX, u64::MAX, 0), Err(ErrorCode::ArithmeticOverflow));
}

#[test]
fn staking_reward_past_u64_overflows() {
    assert_eq!(
        calculate_staking_reward(u64::MAX, 10_000_000_000, 0),
        Err(ErrorCode::ArithmeticOverflow)
    );
}

#[test]
fn loan_interest_for_one_year_is_thirteen_percent() {
    assert_eq!(calculate_loan_interest(400_000_000, SECONDS_PER_YEAR as i64), Ok(52_000_000));
}

#[test]
fn loan_interest_rounds_down() {
    // 1000 * 13 * 3600 / (100 * SECONDS_PER_YEAR) is below one
    assert_eq!(calculate_loan_interest(1000, 3600), Ok(0));
    assert_eq!(calculate_loan_interest(1_000_000, 86_400), Ok(356));
}

#[test]
fn loan_interest_without_elapsed_time_is_zero() {
    assert_eq!(calculate_loan_interest(u64::MAX, 0), Ok(0));
    assert_eq!(calculate_loan_interest(u64::MAX, -100), Ok(0));
}

#[test]
fn loan_interest_for_400_tokens_over_a_year() {
    assert_eq!(
        calculate_loan_interest(400_000_000_000, SECONDS_PER_YEAR as i64),
        Ok(52_000_000_000)
    );
    assert_eq!(calculate_loan_interest(u64::MAX, 1), Ok(76_042_514_256));
}

#[test]
fn loan_interest_with_product_past_u128_overflows() {
    assert_eq!(calculate_loan_interest(u64::MAX, i64::MAX), Err(ErrorCode::ArithmeticOverflow));
}

#[test]
fn loan_interest_past_u64_overflows() {
    assert_eq!(
        calculate_loan_interest(u64::MAX, 1_000_000_000_000),
        Err(ErrorCode::ArithmeticOverflow)
    );
}

#[test]
fn every_error_has_a_message() {
    assert_eq!(ErrorCode::InvalidCollateralRatio.message(), "Invalid collateral ratio");
    assert_eq!(ErrorCode::NoActiveLoan.message(), "No active loan found");
    assert_eq!(ErrorCode::StakingPeriodTooShort.message(), "Staking period too short");
}
