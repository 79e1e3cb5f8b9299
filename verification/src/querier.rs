//! What the two oracles are asked and what they answer.
//!
//! The library never calls an oracle. Its caller asks, and hands each answer over as a
//! `Result`: the quote, or the reason why there is none. An operation looks at an
//! answer only at the step at which it needs it.

use crate::asset::{AssetInfo, AssetInfoView};
use crate::error::{ContractError, OracleError};
use crate::math::Decimal;
use crate::response::Action;
use crate::state::{read_config, Ledger, LedgerView};
use vstd::prelude::*;

verus! {

/// What the collateral oracle says of a collateral asset.
#[derive(Clone, Copy, Debug, PartialEq, Eq, Structural)]
pub struct CollateralInfo {
    /// The price of one unit.
    pub price: Decimal,
    /// The factor by which the asset's risk raises the minimum collateral ratio.
    pub multiplier: Decimal,
    /// Whether the asset is no longer accepted as collateral.
    pub is_revoked: bool,
}

/// A question to an oracle: which oracle is asked, about which asset, and whether the
/// quote must be fresh.
#[derive(Debug, PartialEq, Eq)]
pub struct OracleRequest {
    pub oracle: String,
    pub asset: AssetInfo,
    pub require_fresh: bool,
}

/// The model of an [`OracleRequest`].
pub struct OracleRequestView {
    pub oracle: Seq<char>,
    pub asset: AssetInfoView,
    pub require_fresh: bool,
}

impl View for OracleRequest {
    type V = OracleRequestView;

    open spec fn view(&self) -> OracleRequestView {
        OracleRequestView {
            oracle: self.oracle@,
            asset: self.asset@,
            require_fresh: self.require_fresh,
        }
    }
}

/// The question that an operation puts to the price oracle about a synthetic asset:
/// the oracle is the one that the ledger is configured with.
pub open spec fn asset_price_question(
    ledger: LedgerView,
    asset: AssetInfoView,
    action: Action,
) -> Result<OracleRequestView, ContractError> {
    match ledger.config {
        Some(config) => Ok(
            OracleRequestView {
                oracle: config.oracle,
                asset,
                require_fresh: action != Action::Deposit,
            },
        ),
        None => Err(ContractError::NotInitialized),
    }
}

/// The question that an operation puts to the collateral oracle about a collateral
/// asset: the oracle is the one that the ledger is configured with.
pub open spec fn collateral_info_question(
    ledger: LedgerView,
    collateral: AssetInfoView,
    action: Action,
) -> Result<OracleRequestView, ContractError> {
    match ledger.config {
        Some(config) => Ok(
            OracleRequestView {
                oracle: config.collateral_oracle,
                asset: collateral,
                require_fresh: action != Action::Deposit,
            },
        ),
        None => Err(ContractError::NotInitialized),
    }
}

/// The price that the oracle quoted for a synthetic asset, or its failure.
pub open spec fn asset_price_of(quote: Result<Decimal, OracleError>) -> Result<
    Decimal,
    ContractError,
> {
    match quote {
        Ok(price) => Ok(price),
        Err(e) => Err(ContractError::Oracle(e)),
    }
}

/// What the collateral oracle quoted, or its failure.
pub open spec fn collateral_info_of(quote: Result<CollateralInfo, OracleError>) -> Result<
    CollateralInfo,
    ContractError,
> {
    match quote {
        Ok(info) => Ok(info),
        Err(e) => Err(ContractError::Oracle(e)),
    }
}

/// The price of a synthetic asset from the oracle's answer. A failure of the oracle is
/// handed on as it is.
pub fn load_asset_price(quote: Result<Decimal, OracleError>) -> (r: Result<Decimal, ContractError>)
    ensures
        r == asset_price_of(quote),
{
    match quote {
        Ok(price) => Ok(price),
        Err(e) => Err(ContractError::Oracle(e)),
    }
}

/// Price, multiplier and revocation of a collateral asset from the collateral oracle's
/// answer. A failure of the oracle is handed on as it is.
pub fn load_collateral_info(quote: Result<CollateralInfo, OracleError>) -> (r: Result<
    CollateralInfo,
    ContractError,
>)
    ensures
        r == collateral_info_of(quote),
{
    match quote {
        Ok(info) => Ok(info),
        Err(e) => Err(ContractError::Oracle(e)),
    }
}

/// Whether the quotes for an operation must be fresh. An operation that can lower a
/// position's cover, or that creates one, needs fresh quotes; a deposit only adds
/// collateral and takes a quote as old as the oracle has it.
pub fn require_fresh(action: Action) -> (fresh: bool)
    ensures
        fresh == (action != Action::Deposit),
{
    match action {
        Action::OpenPosition => true,
        Action::Deposit => false,
        Action::Withdraw => true,
        Action::Mint => true,
    }
}

/// The question to put to the price oracle before `action`, about the synthetic asset
/// `asset`.
pub fn asset_price_request(storage: &Ledger, asset: &AssetInfo, action: Action) -> (r: Result<
    OracleRequest,
    ContractError,
>)
    ensures
        match r {
            Ok(request) => asset_price_question(storage@, asset@, action) == Ok::<
                OracleRequestView,
                ContractError,
            >(request@),
            Err(e) => asset_price_question(storage@, asset@, action) == Err::<
                OracleRequestView,
                ContractError,
            >(e),
        },
{
    let config = match read_config(storage) {
        Err(e) => { return Err(e); },
        Ok(config) => config,
    };
    Ok(
        OracleRequest {
            oracle: config.oracle,
            asset: asset.clone(),
            require_fresh: require_fresh(action),
        },
    )
}

/// The question to put to the collateral oracle before `action`, about the collateral
/// asset `collateral`.
pub fn collateral_info_request(storage: &Ledger, collateral: &AssetInfo, action: Action) -> (r:
    Result<OracleRequest, ContractError>)
    ensures
        match r {
            Ok(request) => collateral_info_question(storage@, collateral@, action) == Ok::<
                OracleRequestView,
                ContractError,
            >(request@),
            Err(e) => collateral_info_question(storage@, collateral@, action) == Err::<
                OracleRequestView,
                ContractError,
            >(e),
        },
{
    let config = match read_config(storage) {
        Err(e) => { return Err(e); },
        Ok(config) => config,
    };
    Ok(
        OracleRequest {
            oracle: config.collateral_oracle,
            asset: collateral.clone(),
            require_fresh: require_fresh(action),
        },
    )
}

} // verus!
