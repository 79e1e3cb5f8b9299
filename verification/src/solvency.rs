//! The collateral that a debt requires, and the one check that holds every position to it.
//!
//! A position is covered where
//! `collateral >= debt * (asset price / collateral price) * minimum ratio * multiplier`.
//! Nothing in this is rounded. Prices, ratio and multiplier are decimals, each a whole
//! number of atomic units over `10^18`, so the inequality is the same as
//! `collateral * collateral price * 10^36 >= debt * asset price * minimum ratio * multiplier`
//! over the atomic units, and that is how it is stated and decided here.

use crate::error::ContractError;
use crate::math::{product_exceeds, ArithmeticError, Decimal, DECIMAL_FRACTIONAL};
use vstd::prelude::*;

verus! {

/// The debt's side of the inequality:
/// `debt * asset price * minimum ratio * multiplier`, over the atomic units.
pub open spec fn debt_weight(
    asset_amount: u128,
    asset_price: Decimal,
    min_collateral_ratio: Decimal,
    multiplier: Decimal,
) -> int {
    asset_amount * asset_price.atomics * min_collateral_ratio.atomics * multiplier.atomics
}

/// The collateral's side of the inequality:
/// `collateral * collateral price * 10^36`, over the atomic units.
pub open spec fn collateral_weight(collateral_amount: u128, collateral_price: Decimal) -> int {
    collateral_amount * collateral_price.atomics * DECIMAL_FRACTIONAL * DECIMAL_FRACTIONAL
}

/// Whether `collateral_amount` covers `asset_amount` units of debt:
/// `collateral >= debt * (asset price / collateral price) * minimum ratio * multiplier`,
/// exactly. A collateral without a price covers nothing.
pub open spec fn covers(
    collateral_amount: u128,
    asset_amount: u128,
    asset_price: Decimal,
    collateral_price: Decimal,
    min_collateral_ratio: Decimal,
    multiplier: Decimal,
) -> bool {
    &&& collateral_price.atomics != 0
    &&& debt_weight(asset_amount, asset_price, min_collateral_ratio, multiplier)
        <= collateral_weight(collateral_amount, collateral_price)
}

/// Whether `required` is the collateral that the debt requires: the least amount that
/// covers it.
pub open spec fn is_required_collateral(
    required: u128,
    asset_amount: u128,
    asset_price: Decimal,
    collateral_price: Decimal,
    min_collateral_ratio: Decimal,
    multiplier: Decimal,
) -> bool {
    &&& covers(
        required,
        asset_amount,
        asset_price,
        collateral_price,
        min_collateral_ratio,
        multiplier,
    )
    &&& required > 0 ==> !covers(
        (required - 1) as u128,
        asset_amount,
        asset_price,
        collateral_price,
        min_collateral_ratio,
        multiplier,
    )
}

/// The outcome of the check: `DivideByZero` where the collateral has no price,
/// `InsufficientCollateral` where the collateral does not cover the debt, and success
/// otherwise.
pub open spec fn collateral_ratio_check(
    collateral_amount: u128,
    asset_amount: u128,
    asset_price: Decimal,
    collateral_price: Decimal,
    min_collateral_ratio: Decimal,
    multiplier: Decimal,
) -> Result<(), ContractError> {
    if collateral_price.atomics == 0 {
        Err(ContractError::Arithmetic(ArithmeticError::DivideByZero))
    } else if debt_weight(asset_amount, asset_price, min_collateral_ratio, multiplier)
        > collateral_weight(collateral_amount, collateral_price) {
        Err(ContractError::InsufficientCollateral)
    } else {
        Ok(())
    }
}

/// Holds `collateral_amount` against the collateral that `asset_amount` units of debt
/// require. Withdrawing and minting both end in this check.
pub fn assert_min_collateral_ratio(
    collateral_amount: u128,
    asset_amount: u128,
    asset_price: Decimal,
    collateral_price: Decimal,
    min_collateral_ratio: Decimal,
    multiplier: Decimal,
) -> (r: Result<(), ContractError>)
    ensures
        r == collateral_ratio_check(
            collateral_amount,
            asset_amount,
            asset_price,
            collateral_price,
            min_collateral_ratio,
            multiplier,
        ),
        r.is_ok() == covers(
            collateral_amount,
            asset_amount,
            asset_price,
            collateral_price,
            min_collateral_ratio,
            multiplier,
        ),
{
    if collateral_price.atomics == 0 {
        return Err(ContractError::Arithmetic(ArithmeticError::DivideByZero));
    }
    if product_exceeds(
        asset_amount,
        asset_price.atomics,
        min_collateral_ratio.atomics,
        multiplier.atomics,
        collateral_amount,
        collateral_price.atomics,
        DECIMAL_FRACTIONAL,
        DECIMAL_FRACTIONAL,
    ) {
        Err(ContractError::InsufficientCollateral)
    } else {
        Ok(())
    }
}

} // verus!
