//! The checks that the operations share.

use crate::asset::{Asset, AssetView};
use crate::error::{ContractError, RegistryError, ValidationError};
use crate::math::{product_exceeds, Decimal, DECIMAL_FRACTIONAL};
use crate::querier::CollateralInfo;
use crate::state::{AssetConfig, AssetConfigView, Position, PositionView};
use vstd::prelude::*;

verus! {

/// A migrated asset, one with an end price, is refused.
pub open spec fn migrated_check(asset_config: AssetConfigView) -> Result<(), ContractError> {
    if asset_config.end_price.is_some() {
        Err(ContractError::Registry(RegistryError::AssetMigrated))
    } else {
        Ok(())
    }
}

/// A revoked collateral is refused; of another, price and multiplier are handed on.
pub open spec fn revoked_check(info: CollateralInfo) -> Result<(Decimal, Decimal), ContractError> {
    if info.is_revoked {
        Err(ContractError::Registry(RegistryError::AssetRevoked))
    } else {
        Ok((info.price, info.multiplier))
    }
}

/// The collateral must be the asset that the position holds as collateral, and its
/// amount must not be zero.
pub open spec fn collateral_check(position: PositionView, collateral: AssetView) -> Result<
    (),
    ContractError,
> {
    if collateral.info != position.collateral.info || collateral.amount == 0 {
        Err(ContractError::Validation(ValidationError::WrongCollateral))
    } else {
        Ok(())
    }
}

/// The asset must be the one that the position owes, and its amount must not be zero.
pub open spec fn asset_check(position: PositionView, asset: AssetView) -> Result<
    (),
    ContractError,
> {
    if asset.info != position.asset.info || asset.amount == 0 {
        Err(ContractError::Validation(ValidationError::WrongAsset))
    } else {
        Ok(())
    }
}

/// A protocol fee rate must be below one.
pub open spec fn protocol_fee_check(protocol_fee_rate: Decimal) -> Result<Decimal, ContractError> {
    if protocol_fee_rate.atomics >= DECIMAL_FRACTIONAL {
        Err(ContractError::Validation(ValidationError::InvalidProtocolFee))
    } else {
        Ok(protocol_fee_rate)
    }
}

/// The ratio asked for must be at least the minimum ratio times the multiplier. The
/// product is taken exactly: over the atomic units,
/// `ratio * 10^18 >= minimum ratio * multiplier`.
pub open spec fn target_ratio_check(
    collateral_ratio: Decimal,
    min_collateral_ratio: Decimal,
    multiplier: Decimal,
) -> Result<(), ContractError> {
    if collateral_ratio.atomics * DECIMAL_FRACTIONAL < min_collateral_ratio.atomics
        * multiplier.atomics {
        Err(ContractError::Validation(ValidationError::LowCollateralRatio))
    } else {
        Ok(())
    }
}

/// Refuses an asset that has been migrated.
pub fn assert_migrated_asset(asset_config: &AssetConfig) -> (r: Result<(), ContractError>)
    ensures
        r == migrated_check(asset_config@),
{
    if asset_config.end_price.is_some() {
        Err(ContractError::Registry(RegistryError::AssetMigrated))
    } else {
        Ok(())
    }
}

/// Refuses a collateral that has been revoked, and hands on price and multiplier of
/// one that has not.
pub fn assert_revoked_collateral(info: CollateralInfo) -> (r: Result<
    (Decimal, Decimal),
    ContractError,
>)
    ensures
        r == revoked_check(info),
{
    if info.is_revoked {
        Err(ContractError::Registry(RegistryError::AssetRevoked))
    } else {
        Ok((info.price, info.multiplier))
    }
}

/// Refuses a collateral that is not the position's collateral asset, and a zero amount.
pub fn assert_collateral(position: &Position, collateral: &Asset) -> (r: Result<
    (),
    ContractError,
>)
    ensures
        r == collateral_check(position@, collateral@),
{
    if !collateral.info.equal(&position.collateral.info) || collateral.amount == 0 {
        Err(ContractError::Validation(ValidationError::WrongCollateral))
    } else {
        Ok(())
    }
}

/// Refuses an asset that is not the position's synthetic asset, and a zero amount.
pub fn assert_asset(position: &Position, asset: &Asset) -> (r: Result<(), ContractError>)
    ensures
        r == asset_check(position@, asset@),
{
    if !asset.info.equal(&position.asset.info) || asset.amount == 0 {
        Err(ContractError::Validation(ValidationError::WrongAsset))
    } else {
        Ok(())
    }
}

/// Refuses a protocol fee rate of one or more.
pub fn assert_protocol_fee(protocol_fee_rate: Decimal) -> (r: Result<Decimal, ContractError>)
    ensures
        r == protocol_fee_check(protocol_fee_rate),
{
    if protocol_fee_rate.atomics >= DECIMAL_FRACTIONAL {
        Err(ContractError::Validation(ValidationError::InvalidProtocolFee))
    } else {
        Ok(protocol_fee_rate)
    }
}

/// Refuses a collateral ratio below the minimum ratio times the multiplier.
pub fn assert_target_ratio(
    collateral_ratio: Decimal,
    min_collateral_ratio: Decimal,
    multiplier: Decimal,
) -> (r: Result<(), ContractError>)
    ensures
        r == target_ratio_check(collateral_ratio, min_collateral_ratio, multiplier),
{
    if product_exceeds(
        min_collateral_ratio.atomics,
        multiplier.atomics,
        1,
        1,
        collateral_ratio.atomics,
        DECIMAL_FRACTIONAL,
        1,
        1,
    ) {
        Err(ContractError::Validation(ValidationError::LowCollateralRatio))
    } else {
        Ok(())
    }
}

} // verus!
