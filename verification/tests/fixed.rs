use plasma_amm_sdk::errors::PlasmaError;
use plasma_amm_sdk::fixed::{I80F48, ONE_BITS};

#[test]
fn integers_convert_exactly() {
    assert_eq!(I80F48::zero().to_bits(), 0);
    assert_eq!(I80F48::from_num(3).to_bits(), 844424930131968);
    assert_eq!(I80F48::from_num(3).floor(), Ok(3));
    assert_eq!(I80F48::from_num(u64::MAX).floor(), Ok(u64::MAX));
    assert_eq!(I80F48::from_bits(-5).to_bits(), -5);
    assert_eq!(ONE_BITS, 1u128 << 48);
}

#[test]
fn test_floor() {
    let a = I80F48::from_fraction(1, 2);
    assert_eq!(a.floor(), Ok(0));
    let b = I80F48::from_fraction(3, 2);
    assert_eq!(b.floor(), Ok(1));
    let c = I80F48::from_fraction(5, 2);
    assert_eq!(c.floor(), Ok(2));
    assert!(a.less_than(&b));
    assert!(b.less_than(&c));
    assert!(!b.less_than(&b));
}

#[test]
fn fractions_round_down() {
    assert_eq!(I80F48::from_fraction(1, 3).to_bits(), 93824992236885);
    assert_eq!(I80F48::from_fraction(0, 7).to_bits(), 0);
    assert_eq!(I80F48::from_fraction(7, 7).to_bits(), 1i128 << 48);
}

#[test]
fn floor_of_a_negative_number_is_no_u64() {
    assert_eq!(I80F48::from_bits(-1).floor(), Err(PlasmaError::Underflow));
    assert!(I80F48::from_bits(-1).is_negative());
    assert!(!I80F48::zero().is_negative());
    assert_eq!(I80F48::from_bits(i128::MAX).floor(), Err(PlasmaError::Overflow));
}

#[test]
fn addition_signals_the_bound_it_crosses() {
    let one = I80F48::from_bits(1);
    let minus_one = I80F48::from_bits(-1);
    assert_eq!(I80F48::from_bits(i128::MAX).checked_add(one), Err(PlasmaError::Overflow));
    assert_eq!(I80F48::from_bits(i128::MIN).checked_add(minus_one), Err(PlasmaError::Underflow));
    assert_eq!(I80F48::from_bits(i128::MAX).checked_sub(minus_one), Err(PlasmaError::Overflow));
    assert_eq!(I80F48::from_bits(i128::MIN).checked_sub(one), Err(PlasmaError::Underflow));
    assert_eq!(I80F48::from_num(2).checked_add(I80F48::from_num(3)), Ok(I80F48::from_num(5)));
    assert_eq!(I80F48::from_num(2).checked_sub(I80F48::from_num(3)), Ok(I80F48::from_bits(-(1i128 << 48))));
    assert_eq!(
        I80F48::from_bits(i128::MAX).checked_add(I80F48::from_bits(i128::MIN)),
        Ok(minus_one)
    );
}

#[test]
fn mul_floor_rounds_towards_negative_infinity() {
    assert_eq!(I80F48::from_fraction(1, 2).mul_floor(5), Ok(2));
    assert_eq!(I80F48::from_fraction(1, 3).mul_floor(3), Ok(0));
    assert_eq!(I80F48::from_bits((1i128 << 48) - 1).mul_floor(1), Ok(0));
    assert_eq!(I80F48::from_bits(-1).mul_floor(1), Err(PlasmaError::Underflow));
    assert_eq!(I80F48::from_bits(-1).mul_floor(0), Ok(0));
    assert_eq!(I80F48::from_num(7).mul_floor(6), Ok(42));
}

#[test]
fn mul_floor_signals_what_does_not_fit() {
    assert_eq!(I80F48::from_num(u64::MAX).mul_floor(1), Ok(u64::MAX));
    assert_eq!(I80F48::from_num(u64::MAX).mul_floor(2), Err(PlasmaError::Overflow));
    assert_eq!(I80F48::from_num(1 << 32).mul_floor(1 << 32), Err(PlasmaError::Overflow));
    assert_eq!(I80F48::from_num(1 << 32).mul_floor((1 << 32) - 1), Ok(u64::MAX - (1 << 32) + 1));
    assert_eq!(I80F48::from_bits(i128::MAX).mul_floor(u64::MAX), Err(PlasmaError::Overflow));
    assert_eq!(I80F48::from_bits(i128::MAX).mul_floor(1), Err(PlasmaError::Overflow));
    assert_eq!(I80F48::from_bits(1).mul_floor(u64::MAX), Ok(65535));
}
