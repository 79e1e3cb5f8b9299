//! Fixed-point decimals with eighteen fractional digits.
//!
//! A [`Decimal`] stands for `atomics / 10^18`. Every operation that gives a decimal
//! or an amount rounds towards zero and reports overflow and division by zero as an
//! [`ArithmeticError`]. Where amounts are held against each other nothing may be
//! rounded: [`product_exceeds`] compares products of atomic units in full.

use cosmwasm_std::{CheckedMultiplyRatioError, Uint128, Uint256};
use vstd::arithmetic::mul::lemma_mul_is_associative;
use vstd::prelude::*;

verus! {

/// The number of atomic units in one whole: `10^18`.
pub const DECIMAL_FRACTIONAL: u128 = 1_000_000_000_000_000_000;

/// Why a computation has no result.
#[derive(Clone, Copy, Debug, PartialEq, Eq, Structural)]
pub enum ArithmeticError {
    /// The exact result is larger than `u128::MAX`.
    Overflow,
    /// The divisor is zero.
    DivideByZero,
}

/// A non-negative fixed-point number: `atomics / 10^18`.
#[derive(Clone, Copy, Debug, PartialEq, Eq, Structural)]
pub struct Decimal {
    pub atomics: u128,
}

/// `value * numerator / denominator`, rounded down, over the integers.
pub open spec fn ratio_floor(value: int, numerator: int, denominator: int) -> int {
    (value * numerator) / denominator
}

/// `value * numerator / denominator` rounded down, where it exists and fits in 128 bits.
pub open spec fn multiply_ratio(value: u128, numerator: u128, denominator: u128) -> Result<
    u128,
    ArithmeticError,
> {
    if denominator == 0 {
        Err(ArithmeticError::DivideByZero)
    } else if ratio_floor(value as int, numerator as int, denominator as int) > u128::MAX {
        Err(ArithmeticError::Overflow)
    } else {
        Ok(ratio_floor(value as int, numerator as int, denominator as int) as u128)
    }
}

/// What a [`Decimal`] computation gives, from the outcome on its atomics.
pub open spec fn as_decimal(atomics: Result<u128, ArithmeticError>) -> Result<
    Decimal,
    ArithmeticError,
> {
    match atomics {
        Ok(a) => Ok(Decimal { atomics: a }),
        Err(e) => Err(e),
    }
}

/// `amount * rate`, rounded down to a whole number of units.
pub open spec fn amount_times(amount: u128, rate: Decimal) -> Result<u128, ArithmeticError> {
    multiply_ratio(amount, rate.atomics, DECIMAL_FRACTIONAL)
}

impl Decimal {
    /// The product `self * other`, rounded down to eighteen digits.
    pub open spec fn product(self, other: Decimal) -> Result<Decimal, ArithmeticError> {
        as_decimal(multiply_ratio(self.atomics, other.atomics, DECIMAL_FRACTIONAL))
    }

    /// The quotient `self / other`, rounded down to eighteen digits.
    pub open spec fn quotient(self, other: Decimal) -> Result<Decimal, ArithmeticError> {
        as_decimal(multiply_ratio(self.atomics, DECIMAL_FRACTIONAL, other.atomics))
    }

    /// The reciprocal `1 / self`, rounded down to eighteen digits.
    pub open spec fn reciprocal(self) -> Result<Decimal, ArithmeticError> {
        as_decimal(multiply_ratio(DECIMAL_FRACTIONAL, DECIMAL_FRACTIONAL, self.atomics))
    }

    /// The difference `self - other`, which exists where `other <= self`.
    pub open spec fn difference(self, other: Decimal) -> Result<Decimal, ArithmeticError> {
        if self.atomics < other.atomics {
            Err(ArithmeticError::Overflow)
        } else {
            Ok(Decimal { atomics: (self.atomics - other.atomics) as u128 })
        }
    }

    /// The smaller of the two.
    pub open spec fn smaller(self, other: Decimal) -> Decimal {
        if self.atomics <= other.atomics {
            self
        } else {
            other
        }
    }

    /// The decimal with the given number of atomic units.
    pub fn new(atomics: u128) -> (d: Decimal)
        ensures
            d.atomics == atomics,
    {
        Decimal { atomics }
    }

    /// The decimal `0`.
    pub fn zero() -> (d: Decimal)
        ensures
            d.atomics == 0,
    {
        Decimal { atomics: 0 }
    }

    /// The decimal `1`.
    pub fn one() -> (d: Decimal)
        ensures
            d.atomics == DECIMAL_FRACTIONAL,
    {
        Decimal { atomics: DECIMAL_FRACTIONAL }
    }

    /// The decimal `x / 100`.
    pub fn percent(x: u64) -> (d: Decimal)
        ensures
            d.atomics == x * 10_000_000_000_000_000,
    {
        let x_wide: u128 = x as u128;
        Decimal { atomics: x_wide * 10_000_000_000_000_000 }
    }

    /// The ratio `numerator / denominator` as a decimal, rounded down.
    pub fn from_ratio(numerator: u128, denominator: u128) -> (r: Result<Decimal, ArithmeticError>)
        ensures
            r == as_decimal(multiply_ratio(numerator, DECIMAL_FRACTIONAL, denominator)),
    {
        match checked_multiply_ratio(numerator, DECIMAL_FRACTIONAL, denominator) {
            Ok(atomics) => Ok(Decimal { atomics }),
            Err(e) => Err(e),
        }
    }

    /// The number of atomic units.
    pub fn atomics(&self) -> (a: u128)
        ensures
            a == self.atomics,
    {
        self.atomics
    }

    /// Whether this is the decimal `0`.
    pub fn is_zero(&self) -> (b: bool)
        ensures
            b == (self.atomics == 0),
    {
        self.atomics == 0
    }

    /// Whether `self < other`.
    pub fn lt(&self, other: &Decimal) -> (b: bool)
        ensures
            b == (self.atomics < other.atomics),
    {
        self.atomics < other.atomics
    }
}

/// Calls `cosmwasm_std::Uint128::checked_multiply_ratio`, which multiplies in 256 bits,
/// divides rounding down, and reports a zero denominator and a quotient that does not
/// fit in 128 bits as its two errors.
#[verifier::external_body]
fn checked_multiply_ratio(value: u128, numerator: u128, denominator: u128) -> (r: Result<
    u128,
    ArithmeticError,
>)
    ensures
        r == multiply_ratio(value, numerator, denominator),
{
    match Uint128::new(value).checked_multiply_ratio(numerator, denominator) {
        Ok(ratio) => Ok(ratio.u128()),
        Err(CheckedMultiplyRatioError::DivideByZero) => Err(ArithmeticError::DivideByZero),
        Err(CheckedMultiplyRatioError::Overflow) => Err(ArithmeticError::Overflow),
    }
}

/// `amount * rate`, rounded down to a whole number of units.
pub fn multiply_amount(amount: u128, rate: Decimal) -> (r: Result<u128, ArithmeticError>)
    ensures
        r == amount_times(amount, rate),
{
    checked_multiply_ratio(amount, rate.atomics, DECIMAL_FRACTIONAL)
}

/// `a * b`, rounded down to eighteen digits.
pub fn decimal_multiplication(a: Decimal, b: Decimal) -> (r: Result<Decimal, ArithmeticError>)
    ensures
        r == a.product(b),
{
    match checked_multiply_ratio(a.atomics, b.atomics, DECIMAL_FRACTIONAL) {
        Ok(atomics) => Ok(Decimal { atomics }),
        Err(e) => Err(e),
    }
}

/// `a / b`, rounded down to eighteen digits; division by zero is an error.
pub fn decimal_division(a: Decimal, b: Decimal) -> (r: Result<Decimal, ArithmeticError>)
    ensures
        r == a.quotient(b),
{
    match checked_multiply_ratio(a.atomics, DECIMAL_FRACTIONAL, b.atomics) {
        Ok(atomics) => Ok(Decimal { atomics }),
        Err(e) => Err(e),
    }
}

/// `a - b`; an error where `b` is the larger.
pub fn decimal_subtraction(a: Decimal, b: Decimal) -> (r: Result<Decimal, ArithmeticError>)
    ensures
        r == a.difference(b),
{
    if a.atomics < b.atomics {
        Err(ArithmeticError::Overflow)
    } else {
        Ok(Decimal { atomics: a.atomics - b.atomics })
    }
}

/// `1 / decimal`, rounded down to eighteen digits; the reciprocal of zero is an error.
pub fn reverse_decimal(decimal: Decimal) -> (r: Result<Decimal, ArithmeticError>)
    ensures
        r == decimal.reciprocal(),
{
    match checked_multiply_ratio(DECIMAL_FRACTIONAL, DECIMAL_FRACTIONAL, decimal.atomics) {
        Ok(atomics) => Ok(Decimal { atomics }),
        Err(e) => Err(e),
    }
}

/// The smaller of `a` and `b`.
pub fn decimal_min(a: Decimal, b: Decimal) -> (r: Decimal)
    ensures
        r == a.smaller(b),
{
    if a.atomics <= b.atomics {
        a
    } else {
        b
    }
}

/// The number that a sequence of bytes stands for, the most significant byte first.
pub open spec fn be_value(bytes: Seq<u8>) -> nat
    decreases bytes.len(),
{
    if bytes.len() == 0 {
        0
    } else {
        be_value(bytes.drop_last()) * 256 + bytes.last() as nat
    }
}

/// Calls `cosmwasm_std::Uint128::full_mul`, which gives the product of two 128-bit
/// numbers in 256 bits, where it always fits, and `Uint256::to_be_bytes`, which writes
/// that number out with the most significant byte first.
#[verifier::external_body]
fn full_mul_128(a: u128, b: u128) -> (r: [u8; 32])
    ensures
        be_value(r@) == a * b,
{
    Uint128::new(a).full_mul(b).to_be_bytes()
}

/// Calls `cosmwasm_std::Uint256::full_mul`, which gives the product of two 256-bit
/// numbers in 512 bits, where it always fits. The factors are read with
/// `Uint256::from_be_bytes` and the product is written with `Uint512::to_be_bytes`,
/// each with the most significant byte first.
#[verifier::external_body]
fn full_mul_256(a: &[u8; 32], b: &[u8; 32]) -> (r: [u8; 64])
    ensures
        be_value(r@) == be_value(a@) * be_value(b@),
{
    Uint256::from_be_bytes(*a).full_mul(Uint256::from_be_bytes(*b)).to_be_bytes()
}

/// Of two sequences of the same length that agree up to `i`, the one with the larger
/// byte at `i` stands for the larger number, whatever follows.
proof fn lemma_first_difference_orders(a: Seq<u8>, b: Seq<u8>, i: int, n: int)
    requires
        a.len() == b.len(),
        0 <= i < n <= a.len(),
        a.take(i) == b.take(i),
        a[i] > b[i],
    ensures
        be_value(a.take(n)) > be_value(b.take(n)),
    decreases n,
{
    assert(a.take(n).drop_last() == a.take(n - 1));
    assert(b.take(n).drop_last() == b.take(n - 1));
    if n > i + 1 {
        lemma_first_difference_orders(a, b, i, n - 1);
    }
}

/// Whether the first of two 512-bit numbers is the larger.
fn exceeds(a: &[u8; 64], b: &[u8; 64]) -> (r: bool)
    ensures
        r == (be_value(a@) > be_value(b@)),
{
    let mut i: usize = 0;
    while i < 64
        invariant
            i <= 64,
            a@.len() == 64,
            b@.len() == 64,
            a@.take(i as int) == b@.take(i as int),
        decreases 64 - i,
    {
        if a[i] != b[i] {
            proof {
                assert(a@.take(64) == a@);
                assert(b@.take(64) == b@);
                if a[i as int] > b[i as int] {
                    lemma_first_difference_orders(a@, b@, i as int, 64);
                } else {
                    lemma_first_difference_orders(b@, a@, i as int, 64);
                }
            }
            return a[i] > b[i];
        }
        assert(a@.take(i + 1) == a@.take(i as int).push(a@[i as int]));
        assert(b@.take(i + 1) == b@.take(i as int).push(b@[i as int]));
        i += 1;
    }
    assert(a@.take(64) == a@);
    assert(b@.take(64) == b@);
    false
}

/// Whether `a * b * c * d` is larger than `e * f * g * h`. The products are taken in
/// full, in 512 bits, so nothing is rounded and nothing overflows.
pub fn product_exceeds(
    a: u128,
    b: u128,
    c: u128,
    d: u128,
    e: u128,
    f: u128,
    g: u128,
    h: u128,
) -> (r: bool)
    ensures
        r == (a * b * c * d > e * f * g * h),
{
    let left = full_mul_256(&full_mul_128(a, b), &full_mul_128(c, d));
    let right = full_mul_256(&full_mul_128(e, f), &full_mul_128(g, h));
    proof {
        lemma_mul_is_associative(a * b, c as int, d as int);
        lemma_mul_is_associative(e * f, g as int, h as int);
    }
    exceeds(&left, &right)
}

} // verus!
