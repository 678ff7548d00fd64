//! The failures that the pool and position operations report.

use vstd::prelude::*;
use vstd::string::StringExecFns;

verus! {

/// One variant per violated precondition or arithmetic fault.
#[derive(Debug, Clone, Copy, PartialEq, Eq, Structural)]
pub enum PlasmaError {
    /// Two numbers that must agree do not: the shares of a transfer's
    /// destination and zero, or what a transfer's source holds and what it
    /// owns. Also the product of the reserves before and after a swap, were
    /// it ever to fall.
    InvariantViolation(u128, u128),
    /// The parts of a fee, expected and found. No operation of this library
    /// returns it: the parts of a fee add up by construction.
    MismatchedFees(u128, u128),
    /// The pool has no shares, or one of its reserves is empty.
    UninitializedPool,
    /// The amounts of a swap result do not add up. No operation of this
    /// library returns it.
    SwapAmountMismatch,
    /// A number grew beyond its range, or a position's snapshot is ahead of
    /// the pool's reward factor.
    Overflow,
    /// A number fell below its range.
    Underflow,
    /// A deposit into a pool with shares named a number of shares.
    UnexpectedArgument,
    /// A deposit into a pool without shares named no number of shares.
    MissingExpectedArgument,
    /// A deposit would mint no share.
    BelowMinimumLpSharesRequired,
    /// A withdrawal would return nothing of one asset.
    BelowMinimumWithdrawaRequired { quote_amount_to_withdraw: u64, base_amount_to_withdraw: u64 },
    /// The position already has a batch of shares waiting to vest.
    VestingPeriodNotOver,
    /// No slot of the fee ledger holds the identity.
    IncorrectProtocolFeeRecipient,
    /// More shares are to be burned than the pool has.
    TooManyShares,
    /// An exact-out swap would cost more than its bound allows.
    SwapExactOutTooLarge,
    /// An exact-in swap would return less than its bound demands.
    SwapExactInTooLarge,
    /// A swap would take the named amount out of a reserve that holds no
    /// more than the second number.
    SwapOutputGreaterThanOrEqualToReserves(u128, u128),
}

/// The decimal digit `d` as a character.
pub open spec fn digit_char(d: int) -> char {
    if d == 0 {
        '0'
    } else if d == 1 {
        '1'
    } else if d == 2 {
        '2'
    } else if d == 3 {
        '3'
    } else if d == 4 {
        '4'
    } else if d == 5 {
        '5'
    } else if d == 6 {
        '6'
    } else if d == 7 {
        '7'
    } else if d == 8 {
        '8'
    } else {
        '9'
    }
}

/// The digits of `n` in base ten, without leading zeros.
pub open spec fn decimal(n: nat) -> Seq<char>
    decreases n,
{
    if n < 10 {
        seq![digit_char(n as int)]
    } else {
        decimal(n / 10).push(digit_char((n % 10) as int))
    }
}

/// The digit `d` as a string of one character.
fn digit_str(d: u128) -> (r: &'static str)
    requires
        d < 10,
    ensures
        r@ == seq![digit_char(d as int)],
{
    proof {
        reveal_strlit("0");
        reveal_strlit("1");
        reveal_strlit("2");
        reveal_strlit("3");
        reveal_strlit("4");
        reveal_strlit("5");
        reveal_strlit("6");
        reveal_strlit("7");
        reveal_strlit("8");
        reveal_strlit("9");
    }
    let r = if d == 0 {
        "0"
    } else if d == 1 {
        "1"
    } else if d == 2 {
        "2"
    } else if d == 3 {
        "3"
    } else if d == 4 {
        "4"
    } else if d == 5 {
        "5"
    } else if d == 6 {
        "6"
    } else if d == 7 {
        "7"
    } else if d == 8 {
        "8"
    } else {
        "9"
    };
    assert(r@ =~= seq![digit_char(d as int)]);
    r
}

/// Writes `n` in base ten.
pub fn decimal_string(n: u128) -> (r: String)
    ensures
        r@ == decimal(n as nat),
    decreases n,
{
    if n < 10 {
        digit_str(n).to_owned()
    } else {
        let mut digits = decimal_string(n / 10);
        digits.append(digit_str(n % 10));
        assert(digits@ =~= decimal((n / 10) as nat).push(digit_char((n % 10) as int)));
        digits
    }
}

impl PlasmaError {
    /// The failure in words.
    pub open spec fn message(self) -> Seq<char> {
        match self {
            PlasmaError::InvariantViolation(k_start, k_end) => "InvariantViolation: k_end "@
                + decimal(k_end as nat) + " is less than k_start "@ + decimal(k_start as nat)
                + " "@,
            PlasmaError::MismatchedFees(expected, actual) => "MismatchedFees: Expected "@
                + decimal(expected as nat) + " but got "@ + decimal(actual as nat),
            PlasmaError::UninitializedPool => "Pool is uninitialized"@,
            PlasmaError::SwapAmountMismatch => "SwapAmountMismatch"@,
            PlasmaError::Overflow => "Calculation overflowed"@,
            PlasmaError::Underflow => "Difference underflowed"@,
            PlasmaError::UnexpectedArgument => "Unexpected argument"@,
            PlasmaError::MissingExpectedArgument => "Missing expected argument"@,
            PlasmaError::BelowMinimumLpSharesRequired => "Must mint at least 1 LP share"@,
            PlasmaError::BelowMinimumWithdrawaRequired {
                quote_amount_to_withdraw,
                base_amount_to_withdraw,
            } => "Must withdraw at least 1 base token (actual: "@ + decimal(
                base_amount_to_withdraw as nat,
            ) + " base) and 1 quote token (actual: "@ + decimal(quote_amount_to_withdraw as nat)
                + " quote)"@,
            PlasmaError::VestingPeriodNotOver => "Previous vesting period not over"@,
            PlasmaError::IncorrectProtocolFeeRecipient =>
                "Given protocol fee recipient is not one of the protocol fee recipients"@,
            PlasmaError::TooManyShares => "Too many shares supplied"@,
            PlasmaError::SwapExactOutTooLarge => "SwapExactOut amount too large"@,
            PlasmaError::SwapExactInTooLarge => "SwapExactIn amount too large"@,
            PlasmaError::SwapOutputGreaterThanOrEqualToReserves(input, reserves) => "Swap output "@
                + decimal(input as nat) + " is greater than or equal to reserves "@ + decimal(
                reserves as nat,
            ),
        }
    }

    /// The failure in words, with the numbers it carries in base ten.
    pub fn to_string(&self) -> (r: String)
        ensures
            r@ == self.message(),
    {
        match self {
            PlasmaError::InvariantViolation(k_start, k_end) => {
                let mut text = "InvariantViolation: k_end ".to_owned();
                text.append(decimal_string(*k_end).as_str());
                text.append(" is less than k_start ");
                text.append(decimal_string(*k_start).as_str());
                text.append(" ");
                text
            },
            PlasmaError::MismatchedFees(expected, actual) => {
                let mut text = "MismatchedFees: Expected ".to_owned();
                text.append(decimal_string(*expected).as_str());
                text.append(" but got ");
                text.append(decimal_string(*actual).as_str());
                text
            },
            PlasmaError::UninitializedPool => "Pool is uninitialized".to_owned(),
            PlasmaError::SwapAmountMismatch => "SwapAmountMismatch".to_owned(),
            PlasmaError::Overflow => "Calculation overflowed".to_owned(),
            PlasmaError::Underflow => "Difference underflowed".to_owned(),
            PlasmaError::UnexpectedArgument => "Unexpected argument".to_owned(),
            PlasmaError::MissingExpectedArgument => "Missing expected argument".to_owned(),
            PlasmaError::BelowMinimumLpSharesRequired => "Must mint at least 1 LP share".to_owned(),
            PlasmaError::BelowMinimumWithdrawaRequired {
                quote_amount_to_withdraw,
                base_amount_to_withdraw,
            } => {
                let mut text = "Must withdraw at least 1 base token (actual: ".to_owned();
                text.append(decimal_string(*base_amount_to_withdraw as u128).as_str());
                text.append(" base) and 1 quote token (actual: ");
                text.append(decimal_string(*quote_amount_to_withdraw as u128).as_str());
                text.append(" quote)");
                text
            },
            PlasmaError::VestingPeriodNotOver => "Previous vesting period not over".to_owned(),
            PlasmaError::IncorrectProtocolFeeRecipient =>
                "Given protocol fee recipient is not one of the protocol fee recipients".to_owned(),
            PlasmaError::TooManyShares => "Too many shares supplied".to_owned(),
            PlasmaError::SwapExactOutTooLarge => "SwapExactOut amount too large".to_owned(),
            PlasmaError::SwapExactInTooLarge => "SwapExactIn amount too large".to_owned(),
            PlasmaError::SwapOutputGreaterThanOrEqualToReserves(input, reserves) => {
                let mut text = "Swap output ".to_owned();
                text.append(decimal_string(*input).as_str());
                text.append(" is greater than or equal to reserves ");
                text.append(decimal_string(*reserves).as_str());
                text
            },
        }
    }
}

} // verus!
