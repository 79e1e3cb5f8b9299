//! Why an operation was refused.

use crate::math::ArithmeticError;
use vstd::prelude::*;

verus! {

/// An input that the operation does not accept.
#[derive(Clone, Copy, Debug, PartialEq, Eq, Structural)]
pub enum ValidationError {
    /// The collateral amount is zero, or the collateral is not the asset that the
    /// position holds as collateral.
    WrongCollateral,
    /// The amount to mint is zero, or the asset is not the one that the position owes.
    WrongAsset,
    /// The collateral ratio asked for is below the minimum.
    LowCollateralRatio,
    /// The collateral is too small to mint a single unit.
    MintAmountZero,
    /// More collateral was asked back than the position holds.
    ExcessiveWithdrawal,
    /// The protocol fee rate is one or more.
    InvalidProtocolFee,
}

/// What the asset registry or the collateral oracle says against an asset.
#[derive(Clone, Copy, Debug, PartialEq, Eq, Structural)]
pub enum RegistryError {
    /// The synthetic asset is not registered.
    UnknownAsset,
    /// The synthetic asset has an end price: it is being wound down.
    AssetMigrated,
    /// The collateral asset has been revoked.
    AssetRevoked,
}

/// Why an oracle gave no quote.
#[derive(Clone, Copy, Debug, PartialEq, Eq, Structural)]
pub enum OracleError {
    /// The oracle has no quote for the asset.
    PriceUnavailable,
    /// The quote is older than the oracle accepts.
    StalePrice,
}

/// Every way in which an operation can fail. A failed operation leaves the ledger as
/// it was.
#[derive(Clone, Copy, Debug, PartialEq, Eq, Structural)]
pub enum ContractError {
    /// The ledger holds no configuration or no position counter yet.
    NotInitialized,
    /// The ledger has been set up before.
    AlreadyInitialized,
    /// No position is stored under the identifier.
    PositionNotFound,
    /// An input was rejected before anything was looked up.
    Validation(ValidationError),
    /// The caller does not own the position.
    Unauthorized,
    /// An asset is unknown, migrated or revoked.
    Registry(RegistryError),
    /// An oracle gave no quote.
    Oracle(OracleError),
    /// A value is too extreme to compute with.
    Arithmetic(ArithmeticError),
    /// The collateral would not cover the debt at the required ratio.
    InsufficientCollateral,
}

} // verus!
