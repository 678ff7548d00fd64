use plasma_amm_sdk::errors::{decimal_string, PlasmaError};

#[test]
fn numbers_are_written_in_base_ten() {
    assert_eq!(decimal_string(0), "0");
    assert_eq!(decimal_string(7), "7");
    assert_eq!(decimal_string(10), "10");
    assert_eq!(decimal_string(1_234_567_890), "1234567890");
    assert_eq!(decimal_string(u128::MAX), u128::MAX.to_string());
}

#[test]
fn failures_with_numbers_name_them() {
    assert_eq!(
        PlasmaError::InvariantViolation(12, 5).to_string(),
        "InvariantViolation: k_end 5 is less than k_start 12 "
    );
    assert_eq!(
        PlasmaError::MismatchedFees(100, 99).to_string(),
        "MismatchedFees: Expected 100 but got 99"
    );
    assert_eq!(
        PlasmaError::BelowMinimumWithdrawaRequired {
            quote_amount_to_withdraw: 100,
            base_amount_to_withdraw: 0,
        }
        .to_string(),
        "Must withdraw at least 1 base token (actual: 0 base) and 1 quote token (actual: 100 quote)"
    );
    assert_eq!(
        PlasmaError::SwapOutputGreaterThanOrEqualToReserves(1_000_000, 999).to_string(),
        "Swap output 1000000 is greater than or equal to reserves 999"
    );
}

#[test]
fn failures_without_numbers_are_fixed_words() {
    assert_eq!(PlasmaError::UninitializedPool.to_string(), "Pool is uninitialized");
    assert_eq!(PlasmaError::SwapAmountMismatch.to_string(), "SwapAmountMismatch");
    assert_eq!(PlasmaError::Overflow.to_string(), "Calculation overflowed");
    assert_eq!(PlasmaError::Underflow.to_string(), "Difference underflowed");
    assert_eq!(PlasmaError::UnexpectedArgument.to_string(), "Unexpected argument");
    assert_eq!(PlasmaError::MissingExpectedArgument.to_string(), "Missing expected argument");
    assert_eq!(
        PlasmaError::BelowMinimumLpSharesRequired.to_string(),
        "Must mint at least 1 LP share"
    );
    assert_eq!(PlasmaError::VestingPeriodNotOver.to_string(), "Previous vesting period not over");
    assert_eq!(
        PlasmaError::IncorrectProtocolFeeRecipient.to_string(),
        "Given protocol fee recipient is not one of the protocol fee recipients"
    );
    assert_eq!(PlasmaError::TooManyShares.to_string(), "Too many shares supplied");
    assert_eq!(PlasmaError::SwapExactOutTooLarge.to_string(), "SwapExactOut amount too large");
    assert_eq!(PlasmaError::SwapExactInTooLarge.to_string(), "SwapExactIn amount too large");
}
