//! Signed fixed-point numbers with 80 integer bits and 48 fractional bits.

use vstd::prelude::*;
use vstd::arithmetic::div_mod::{lemma_fundamental_div_mod, lemma_fundamental_div_mod_converse};
use crate::errors::PlasmaError;

verus! {

/// The weight of the lowest integer bit: two to the power 48.
pub const ONE_BITS: u128 = 0x1_0000_0000_0000;

/// A number held as `bits` / 2^48.
#[derive(Debug, Clone, Copy, PartialEq, Eq, Structural)]
pub struct I80F48 {
    pub inner: i128,
}

/// The integer that multiplying `bits` / 2^48 by `n` and rounding towards
/// negative infinity gives.
pub open spec fn scaled_floor(bits: int, n: int) -> int {
    (bits * n) / (ONE_BITS as int)
}

/// Splitting `delta` at the binary point does not change the rounded product:
/// (hi·2^48 + lo)·n / 2^48 = hi·n + lo·n / 2^48.
pub proof fn lemma_scaled_floor_split(hi: int, lo: int, n: int)
    requires
        0 <= lo < ONE_BITS,
        0 <= n,
    ensures
        scaled_floor(hi * (ONE_BITS as int) + lo, n) == hi * n + scaled_floor(lo, n),
{
    let d = ONE_BITS as int;
    let q = (lo * n) / d;
    let r = (lo * n) % d;
    lemma_fundamental_div_mod(lo * n, d);
    assert((hi * d + lo) * n == d * (hi * n + q) + r) by (nonlinear_arith)
        requires
            lo * n == d * q + r,
    ;
    lemma_fundamental_div_mod_converse((hi * d + lo) * n, d, hi * n + q, r);
}

impl I80F48 {
    /// The number as a multiple of 2^-48.
    pub open spec fn bits(self) -> int {
        self.inner as int
    }

    pub fn zero() -> (r: Self)
        ensures
            r.bits() == 0,
    {
        I80F48 { inner: 0 }
    }

    /// The fixed-point number equal to the integer `value`.
    pub fn from_num(value: u64) -> (r: Self)
        ensures
            r.bits() == value * ONE_BITS,
    {
        let wide: u128 = value as u128;
        assert(wide * ONE_BITS < 0x1_0000_0000_0000_0000_0000_0000_0000) by (nonlinear_arith)
            requires
                wide < 0x1_0000_0000_0000_0000,
                ONE_BITS == 0x1_0000_0000_0000,
        ;
        let scaled: u128 = wide * ONE_BITS;
        I80F48 { inner: scaled as i128 }
    }

    /// `numerator` / `denominator`, rounded down to a multiple of 2^-48.
    pub fn from_fraction(numerator: u64, denominator: u64) -> (r: Self)
        requires
            denominator != 0,
        ensures
            r.bits() == (numerator * ONE_BITS) / (denominator as int),
    {
        let wide: u128 = numerator as u128;
        assert(wide * ONE_BITS < 0x1_0000_0000_0000_0000_0000_0000_0000) by (nonlinear_arith)
            requires
                wide < 0x1_0000_0000_0000_0000,
                ONE_BITS == 0x1_0000_0000_0000,
        ;
        let scaled: u128 = wide * ONE_BITS;
        let q: u128 = scaled / (denominator as u128);
        I80F48 { inner: q as i128 }
    }

    pub fn to_bits(&self) -> (r: i128)
        ensures
            r == self.bits(),
    {
        self.inner
    }

    pub fn from_bits(bits: i128) -> (r: Self)
        ensures
            r.bits() == bits,
    {
        I80F48 { inner: bits }
    }

    pub fn is_negative(&self) -> (r: bool)
        ensures
            r == (self.bits() < 0),
    {
        self.inner < 0
    }

    /// Whether `self` is strictly below `other`.
    pub fn less_than(&self, other: &Self) -> (r: bool)
        ensures
            r == (self.bits() < other.bits()),
    {
        self.inner < other.inner
    }

    /// The sum, or the signal of the bound that it crosses.
    pub fn checked_add(self, rhs: Self) -> (r: Result<Self, PlasmaError>)
        ensures
            self.bits() + rhs.bits() > i128::MAX ==> r == Err::<Self, PlasmaError>(
                PlasmaError::Overflow,
            ),
            self.bits() + rhs.bits() < i128::MIN ==> r == Err::<Self, PlasmaError>(
                PlasmaError::Underflow,
            ),
            i128::MIN <= self.bits() + rhs.bits() <= i128::MAX ==> r is Ok && r->Ok_0.bits()
                == self.bits() + rhs.bits(),
    {
        match self.inner.checked_add(rhs.inner) {
            Some(sum) => Ok(I80F48 { inner: sum }),
            None => if rhs.inner > 0 {
                Err(PlasmaError::Overflow)
            } else {
                Err(PlasmaError::Underflow)
            },
        }
    }

    /// The difference, or the signal of the bound that it crosses.
    pub fn checked_sub(self, rhs: Self) -> (r: Result<Self, PlasmaError>)
        ensures
            self.bits() - rhs.bits() > i128::MAX ==> r == Err::<Self, PlasmaError>(
                PlasmaError::Overflow,
            ),
            self.bits() - rhs.bits() < i128::MIN ==> r == Err::<Self, PlasmaError>(
                PlasmaError::Underflow,
            ),
            i128::MIN <= self.bits() - rhs.bits() <= i128::MAX ==> r is Ok && r->Ok_0.bits()
                == self.bits() - rhs.bits(),
    {
        match self.inner.checked_sub(rhs.inner) {
            Some(diff) => Ok(I80F48 { inner: diff }),
            None => if rhs.inner < 0 {
                Err(PlasmaError::Overflow)
            } else {
                Err(PlasmaError::Underflow)
            },
        }
    }

    /// The integer part, rounding towards negative infinity, where it is a `u64`.
    pub fn floor(&self) -> (r: Result<u64, PlasmaError>)
        ensures
            self.bits() < 0 ==> r == Err::<u64, PlasmaError>(PlasmaError::Underflow),
            scaled_floor(self.bits(), 1) > u64::MAX ==> r == Err::<u64, PlasmaError>(
                PlasmaError::Overflow,
            ),
            self.bits() >= 0 && scaled_floor(self.bits(), 1) <= u64::MAX ==> r == Ok::<
                u64,
                PlasmaError,
            >(scaled_floor(self.bits(), 1) as u64),
    {
        self.mul_floor(1)
    }

    /// `self` times `n`, rounded towards negative infinity, where the result
    /// is a `u64`: `Underflow` where it is negative, `Overflow` where it is
    /// above `u64::MAX`.
    pub fn mul_floor(&self, n: u64) -> (r: Result<u64, PlasmaError>)
        ensures
            scaled_floor(self.bits(), n as int) < 0 ==> r == Err::<u64, PlasmaError>(
                PlasmaError::Underflow,
            ),
            scaled_floor(self.bits(), n as int) > u64::MAX ==> r == Err::<u64, PlasmaError>(
                PlasmaError::Overflow,
            ),
            0 <= scaled_floor(self.bits(), n as int) <= u64::MAX ==> r == Ok::<u64, PlasmaError>(
                scaled_floor(self.bits(), n as int) as u64,
            ),
    {
        let ghost d: int = ONE_BITS as int;
        if n == 0 {
            assert(self.bits() * 0 == 0);
            assert(0int / d == 0);
            return Ok(0);
        }
        if self.inner < 0 {
            proof {
                let b = self.bits();
                assert(b * n < 0) by (nonlinear_arith)
                    requires
                        b < 0,
                        n > 0,
                ;
                lemma_fundamental_div_mod(b * n, d);
                let q = (b * n) / d;
                assert(q < 0) by (nonlinear_arith)
                    requires
                        b * n == d * q + (b * n) % d,
                        0 <= (b * n) % d,
                        b * n < 0,
                        d > 0,
                ;
            }
            return Err(PlasmaError::Underflow);
        }
        let b: u128 = self.inner as u128;
        let hi: u128 = b / ONE_BITS;
        let lo: u128 = b % ONE_BITS;
        let wide: u128 = n as u128;
        proof {
            lemma_fundamental_div_mod(b as int, d);
            assert(b == hi * ONE_BITS + lo) by (nonlinear_arith)
                requires
                    b == ONE_BITS * hi + lo,
            ;
            lemma_scaled_floor_split(hi as int, lo as int, n as int);
            assert(lo * wide < 0x1_0000_0000_0000_0000_0000_0000_0000) by (nonlinear_arith)
                requires
                    lo < 0x1_0000_0000_0000,
                    wide < 0x1_0000_0000_0000_0000,
            ;
            assert(0 <= scaled_floor(lo as int, n as int) < 0x1_0000_0000_0000_0000)
                by (nonlinear_arith)
                requires
                    0 <= lo * n < 0x1_0000_0000_0000_0000_0000_0000_0000,
                    scaled_floor(lo as int, n as int) == (lo * n) / 0x1_0000_0000_0000,
            ;
            assert(hi < 0x1_0000_0000_0000_0000_0000) by (nonlinear_arith)
                requires
                    hi == b / 0x1_0000_0000_0000u128,
                    b < 0x8000_0000_0000_0000_0000_0000_0000_0000,
            ;
            assert(hi * wide < 0x1_0000_0000_0000_0000_0000_0000_0000_0000_0000)
                by (nonlinear_arith)
                requires
                    hi < 0x1_0000_0000_0000_0000_0000,
                    wide < 0x1_0000_0000_0000_0000,
            ;
            assert(0 <= hi * wide) by (nonlinear_arith);
        }
        let low_part: u128 = (lo * wide) / ONE_BITS;
        if hi > (u64::MAX as u128) {
            proof {
                assert(hi * n >= hi) by (nonlinear_arith)
                    requires
                        n >= 1,
                        hi >= 0,
                ;
            }
            return Err(PlasmaError::Overflow);
        }
        assert(hi * wide < 0x1_0000_0000_0000_0000_0000_0000_0000_0000) by (nonlinear_arith)
            requires
                hi < 0x1_0000_0000_0000_0000,
                wide < 0x1_0000_0000_0000_0000,
        ;
        let high_part: u128 = hi * wide;
        if high_part > (u64::MAX as u128) {
            return Err(PlasmaError::Overflow);
        }
        let total: u128 = high_part + low_part;
        if total > (u64::MAX as u128) {
            return Err(PlasmaError::Overflow);
        }
        Ok(total as u64)
    }
}

} // verus!
