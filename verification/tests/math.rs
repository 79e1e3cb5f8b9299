use melange_mint::math::{
    decimal_division, decimal_min, decimal_multiplication, decimal_subtraction, multiply_amount,
    reverse_decimal, ArithmeticError, Decimal, DECIMAL_FRACTIONAL,
};

const ONE: u128 = 1_000_000_000_000_000_000;

#[test]
fn one_has_ten_to_the_eighteen_atomics() {
    assert_eq!(DECIMAL_FRACTIONAL, ONE);
    assert_eq!(Decimal::one().atomics(), ONE);
    assert_eq!(Decimal::zero().atomics(), 0);
    assert!(Decimal::zero().is_zero());
    assert!(!Decimal::one().is_zero());
    assert_eq!(Decimal::new(42).atomics(), 42);
}

#[test]
fn percent_counts_hundredths() {
    assert_eq!(Decimal::percent(150), Decimal::new(ONE + ONE / 2));
    assert_eq!(Decimal::percent(100), Decimal::one());
    assert_eq!(Decimal::percent(0), Decimal::zero());
    assert_eq!(Decimal::percent(u64::MAX).atomics(), (u64::MAX as u128) * 10_000_000_000_000_000);
}

#[test]
fn from_ratio_rounds_down() {
    assert_eq!(Decimal::from_ratio(1, 2), Ok(Decimal::percent(50)));
    assert_eq!(Decimal::from_ratio(1, 3), Ok(Decimal::new(333_333_333_333_333_333)));
    assert_eq!(Decimal::from_ratio(2, 3), Ok(Decimal::new(666_666_666_666_666_666)));
    assert_eq!(Decimal::from_ratio(7, 0), Err(ArithmeticError::DivideByZero));
    assert_eq!(Decimal::from_ratio(u128::MAX, 1), Err(ArithmeticError::Overflow));
}

#[test]
fn less_than_compares_atomics() {
    assert!(Decimal::percent(149).lt(&Decimal::percent(150)));
    assert!(!Decimal::percent(150).lt(&Decimal::percent(150)));
    assert!(!Decimal::percent(151).lt(&Decimal::percent(150)));
}

#[test]
fn multiplication_is_exact_where_it_can_be() {
    assert_eq!(
        decimal_multiplication(Decimal::percent(150), Decimal::percent(200)),
        Ok(Decimal::percent(300))
    );
    assert_eq!(
        decimal_multiplication(Decimal::percent(150), Decimal::one()),
        Ok(Decimal::percent(150))
    );
    assert_eq!(decimal_multiplication(Decimal::percent(150), Decimal::zero()), Ok(Decimal::zero()));
}

#[test]
fn multiplication_rounds_down_to_eighteen_digits() {
    // 0.000000000000000001 * 0.5 = 0.0000000000000000005
    assert_eq!(decimal_multiplication(Decimal::new(1), Decimal::percent(50)), Ok(Decimal::zero()));
    // 1.000000000000000001 * 1.999999999999999999 = 2.000000000000000000999...
    assert_eq!(
        decimal_multiplication(Decimal::new(ONE + 1), Decimal::new(2 * ONE - 1)),
        Ok(Decimal::new(2 * ONE))
    );
}

#[test]
fn multiplication_reports_overflow() {
    assert_eq!(
        decimal_multiplication(Decimal::new(u128::MAX), Decimal::percent(200)),
        Err(ArithmeticError::Overflow)
    );
    // The product is taken in 256 bits: a large factor times a small one still fits.
    assert_eq!(
        decimal_multiplication(Decimal::new(u128::MAX), Decimal::percent(50)),
        Ok(Decimal::new(u128::MAX / 2))
    );
}

#[test]
fn division_rounds_down() {
    assert_eq!(
        decimal_division(Decimal::percent(1000), Decimal::percent(500)),
        Ok(Decimal::percent(200))
    );
    assert_eq!(
        decimal_division(Decimal::percent(500), Decimal::percent(1000)),
        Ok(Decimal::percent(50))
    );
    assert_eq!(
        decimal_division(Decimal::one(), Decimal::percent(300)),
        Ok(Decimal::new(333_333_333_333_333_333))
    );
}

#[test]
fn division_by_zero_is_an_error() {
    assert_eq!(
        decimal_division(Decimal::one(), Decimal::zero()),
        Err(ArithmeticError::DivideByZero)
    );
    assert_eq!(
        decimal_division(Decimal::zero(), Decimal::zero()),
        Err(ArithmeticError::DivideByZero)
    );
}

#[test]
fn division_reports_overflow() {
    assert_eq!(
        decimal_division(Decimal::new(u128::MAX), Decimal::percent(50)),
        Err(ArithmeticError::Overflow)
    );
}

#[test]
fn subtraction_is_checked() {
    assert_eq!(
        decimal_subtraction(Decimal::percent(150), Decimal::percent(50)),
        Ok(Decimal::one())
    );
    assert_eq!(decimal_subtraction(Decimal::one(), Decimal::one()), Ok(Decimal::zero()));
    assert_eq!(
        decimal_subtraction(Decimal::percent(50), Decimal::percent(150)),
        Err(ArithmeticError::Overflow)
    );
}

#[test]
fn reciprocal_rounds_down() {
    assert_eq!(reverse_decimal(Decimal::percent(200)), Ok(Decimal::percent(50)));
    assert_eq!(reverse_decimal(Decimal::one()), Ok(Decimal::one()));
    assert_eq!(reverse_decimal(Decimal::percent(300)), Ok(Decimal::new(333_333_333_333_333_333)));
    assert_eq!(reverse_decimal(Decimal::new(1)), Ok(Decimal::new(ONE * ONE)));
}

#[test]
fn reciprocal_of_zero_is_an_error() {
    assert_eq!(reverse_decimal(Decimal::zero()), Err(ArithmeticError::DivideByZero));
}

#[test]
fn minimum_is_the_smaller() {
    assert_eq!(decimal_min(Decimal::percent(50), Decimal::percent(150)), Decimal::percent(50));
    assert_eq!(decimal_min(Decimal::percent(150), Decimal::percent(50)), Decimal::percent(50));
    assert_eq!(decimal_min(Decimal::one(), Decimal::one()), Decimal::one());
}

#[test]
fn amount_times_rate_rounds_down_to_whole_units() {
    assert_eq!(multiply_amount(1000, Decimal::percent(200)), Ok(2000));
    assert_eq!(multiply_amount(1000, Decimal::percent(50)), Ok(500));
    assert_eq!(multiply_amount(5, Decimal::percent(99)), Ok(4));
    assert_eq!(multiply_amount(1, Decimal::percent(99)), Ok(0));
    assert_eq!(multiply_amount(0, Decimal::percent(99)), Ok(0));
    assert_eq!(multiply_amount(123456, Decimal::zero()), Ok(0));
}

#[test]
fn amount_times_rate_reports_overflow() {
    assert_eq!(multiply_amount(u128::MAX, Decimal::percent(101)), Err(ArithmeticError::Overflow));
    assert_eq!(multiply_amount(u128::MAX, Decimal::one()), Ok(u128::MAX));
}
