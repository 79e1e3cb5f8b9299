//! The messages that the ledger takes and the answers that it gives to queries.

use crate::asset::{Asset, AssetInfo};
use crate::math::Decimal;
use vstd::prelude::*;

verus! {

/// What setting the ledger up takes: the addresses of the collaborators, the base
/// denomination, the code of the token contract and the protocol fee rate.
#[derive(Debug, PartialEq, Eq)]
pub struct InstantiateMsg {
    pub owner: String,
    pub oracle: String,
    pub collector: String,
    pub collateral_oracle: String,
    pub staking: String,
    pub melange_factory: String,
    pub lock: String,
    pub base_denom: String,
    pub token_code_id: u64,
    pub protocol_fee_rate: Decimal,
}

/// A request for one of the operations on a position.
#[allow(inconsistent_fields)]
#[derive(Debug, PartialEq, Eq)]
pub enum ExecuteMsg {
    /// Open a position that meets the collateral ratio.
    OpenPosition { collateral: Asset, asset_info: AssetInfo, collateral_ratio: Decimal },
    /// Add collateral to a position.
    Deposit { position_idx: u128, collateral: Asset },
    /// Take collateral out of a position: all of it where none is named.
    Withdraw { position_idx: u128, collateral: Option<Asset> },
    /// Mint more of the synthetic asset against a position.
    Mint { position_idx: u128, asset: Asset },
}

/// The configuration, as a query answers it.
#[derive(Debug, PartialEq, Eq)]
pub struct ConfigResponse {
    pub owner: String,
    pub oracle: String,
    pub collector: String,
    pub collateral_oracle: String,
    pub staking: String,
    pub melange_factory: String,
    pub lock: String,
    pub base_denom: String,
    pub token_code_id: u64,
    pub protocol_fee_rate: Decimal,
}

/// A registry entry, as a query answers it.
#[derive(Debug, PartialEq, Eq)]
pub struct AssetConfigResponse {
    pub token: String,
    pub min_collateral_ratio: Decimal,
    pub end_price: Option<Decimal>,
}

/// A position, as a query answers it.
#[derive(Debug, PartialEq, Eq)]
pub struct PositionResponse {
    pub idx: u128,
    pub owner: String,
    pub collateral: Asset,
    pub asset: Asset,
}

} // verus!
