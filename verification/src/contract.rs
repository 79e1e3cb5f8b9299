//! Setting the ledger up, routing a request to its operation, and the queries.

use crate::asserts::{assert_protocol_fee, protocol_fee_check};
use crate::error::{ContractError, OracleError, RegistryError};
use crate::math::Decimal;
use crate::msg::{
    AssetConfigResponse, ConfigResponse, ExecuteMsg, InstantiateMsg, PositionResponse,
};
use crate::positions::{
    agrees, deposit, deposit_outcome, mint, mint_outcome, open_position, open_position_outcome,
    requested, withdraw, withdraw_outcome, Outcome,
};
use crate::querier::CollateralInfo;
use crate::response::{Response, ResponseView};
use crate::state::{
    read_asset_config, read_config, read_position, read_position_idx, store_config,
    store_position_idx, AssetConfigView, Config, ConfigView, Ledger, LedgerView, PositionView,
};
use vstd::prelude::*;

verus! {

/// The configuration that a set-up message asks for.
pub open spec fn config_of(msg: InstantiateMsg) -> ConfigView {
    ConfigView {
        owner: msg.owner@,
        oracle: msg.oracle@,
        collector: msg.collector@,
        collateral_oracle: msg.collateral_oracle@,
        staking: msg.staking@,
        melange_factory: msg.melange_factory@,
        lock: msg.lock@,
        base_denom: msg.base_denom@,
        token_code_id: msg.token_code_id,
        protocol_fee_rate: msg.protocol_fee_rate,
    }
}

/// What setting the ledger up gives: the message's configuration is stored and the
/// counter starts at one. A ledger is set up once: one that holds a configuration or a
/// counter is refused, and so is a protocol fee rate of one or more.
pub open spec fn instantiate_outcome(ledger: LedgerView, msg: InstantiateMsg) -> Result<
    Outcome,
    ContractError,
> {
    if ledger.config.is_some() || ledger.position_idx.is_some() {
        Err(ContractError::AlreadyInitialized)
    } else {
        match protocol_fee_check(msg.protocol_fee_rate) {
            Err(e) => Err(e),
            Ok(_) => Ok(
                Outcome {
                    ledger: LedgerView {
                        config: Some(config_of(msg)),
                        position_idx: Some(1),
                        ..ledger
                    },
                    response: ResponseView { messages: seq![], attributes: seq![] },
                },
            ),
        }
    }
}

/// What a request gives: the outcome of the operation that it names.
pub open spec fn execute_outcome(
    ledger: LedgerView,
    sender: Seq<char>,
    msg: ExecuteMsg,
    collateral_quote: Result<CollateralInfo, OracleError>,
    asset_quote: Result<Decimal, OracleError>,
) -> Result<Outcome, ContractError> {
    match msg {
        ExecuteMsg::OpenPosition {
            collateral,
            asset_info,
            collateral_ratio,
        } => open_position_outcome(
            ledger,
            sender,
            collateral@,
            asset_info@,
            collateral_ratio,
            collateral_quote,
            asset_quote,
        ),
        ExecuteMsg::Deposit { position_idx, collateral } => deposit_outcome(
            ledger,
            sender,
            position_idx,
            collateral@,
            collateral_quote,
        ),
        ExecuteMsg::Withdraw { position_idx, collateral } => withdraw_outcome(
            ledger,
            sender,
            position_idx,
            requested(collateral),
            collateral_quote,
            asset_quote,
        ),
        ExecuteMsg::Mint { position_idx, asset } => mint_outcome(
            ledger,
            sender,
            position_idx,
            asset@,
            collateral_quote,
            asset_quote,
        ),
    }
}

/// Sets the ledger up: stores the configuration and starts the counter at one. This
/// is done once, so that the counter never goes back: a ledger that has been set up is
/// refused. A protocol fee rate of one or more is refused too. A consistent ledger
/// without positions is consistent afterwards.
pub fn instantiate(storage: &mut Ledger, msg: InstantiateMsg) -> (r: Result<
    Response,
    ContractError,
>)
    ensures
        agrees(r, old(storage)@, final(storage)@, instantiate_outcome(old(storage)@, msg)),
        old(storage)@.consistent() && (forall|idx: u128|
            !old(storage)@.positions.contains_key(idx)) ==> final(storage)@.consistent(),
{
    if read_config(storage).is_ok() || read_position_idx(storage).is_ok() {
        return Err(ContractError::AlreadyInitialized);
    }
    let protocol_fee_rate = match assert_protocol_fee(msg.protocol_fee_rate) {
        Err(e) => { return Err(e); },
        Ok(rate) => rate,
    };
    let config = Config {
        owner: msg.owner,
        oracle: msg.oracle,
        collector: msg.collector,
        collateral_oracle: msg.collateral_oracle,
        staking: msg.staking,
        melange_factory: msg.melange_factory,
        lock: msg.lock,
        base_denom: msg.base_denom,
        token_code_id: msg.token_code_id,
        protocol_fee_rate,
    };
    store_config(storage, &config);
    store_position_idx(storage, 1);
    let response = Response::new();
    assert(final(storage)@ =~= instantiate_outcome(old(storage)@, msg)->Ok_0.ledger);
    Ok(response)
}

/// Carries out the operation that `msg` names, for `sender`.
///
/// `collateral_quote` and `asset_quote` are the oracles' answers for the collateral
/// asset and the synthetic asset that the operation is about. A deposit does not look
/// at the second.
pub fn execute(
    storage: &mut Ledger,
    sender: String,
    msg: ExecuteMsg,
    collateral_quote: Result<CollateralInfo, OracleError>,
    asset_quote: Result<Decimal, OracleError>,
) -> (r: Result<Response, ContractError>)
    ensures
        agrees(
            r,
            old(storage)@,
            final(storage)@,
            execute_outcome(old(storage)@, sender@, msg, collateral_quote, asset_quote),
        ),
        old(storage)@.consistent() ==> final(storage)@.consistent(),
{
    match msg {
        ExecuteMsg::OpenPosition { collateral, asset_info, collateral_ratio } => open_position(
            storage,
            sender,
            collateral,
            asset_info,
            collateral_ratio,
            collateral_quote,
            asset_quote,
        ),
        ExecuteMsg::Deposit { position_idx, collateral } => deposit(
            storage,
            sender,
            position_idx,
            collateral,
            collateral_quote,
        ),
        ExecuteMsg::Withdraw { position_idx, collateral } => withdraw(
            storage,
            sender,
            position_idx,
            collateral,
            collateral_quote,
            asset_quote,
        ),
        ExecuteMsg::Mint { position_idx, asset } => mint(
            storage,
            sender,
            position_idx,
            asset,
            collateral_quote,
            asset_quote,
        ),
    }
}

/// The configuration.
pub fn query_config(storage: &Ledger) -> (r: Result<ConfigResponse, ContractError>)
    ensures
        match r {
            Ok(response) => storage@.config == Some(
                ConfigView {
                    owner: response.owner@,
                    oracle: response.oracle@,
                    collector: response.collector@,
                    collateral_oracle: response.collateral_oracle@,
                    staking: response.staking@,
                    melange_factory: response.melange_factory@,
                    lock: response.lock@,
                    base_denom: response.base_denom@,
                    token_code_id: response.token_code_id,
                    protocol_fee_rate: response.protocol_fee_rate,
                },
            ),
            Err(e) => storage@.config.is_none() && e == ContractError::NotInitialized,
        },
{
    let config = match read_config(storage) {
        Err(e) => { return Err(e); },
        Ok(config) => config,
    };
    Ok(
        ConfigResponse {
            owner: config.owner,
            oracle: config.oracle,
            collector: config.collector,
            collateral_oracle: config.collateral_oracle,
            staking: config.staking,
            melange_factory: config.melange_factory,
            lock: config.lock,
            base_denom: config.base_denom,
            token_code_id: config.token_code_id,
            protocol_fee_rate: config.protocol_fee_rate,
        },
    )
}

/// The registry entry of a synthetic token.
pub fn query_asset_config(storage: &Ledger, asset_token: &str) -> (r: Result<
    AssetConfigResponse,
    ContractError,
>)
    ensures
        match r {
            Ok(response) => storage@.asset_configs.contains_key(asset_token@)
                && storage@.asset_configs[asset_token@] == (AssetConfigView {
                token: response.token@,
                min_collateral_ratio: response.min_collateral_ratio,
                end_price: response.end_price,
            }),
            Err(e) => !storage@.asset_configs.contains_key(asset_token@) && e
                == ContractError::Registry(RegistryError::UnknownAsset),
        },
{
    let asset_config = match read_asset_config(storage, asset_token) {
        Err(e) => { return Err(e); },
        Ok(asset_config) => asset_config,
    };
    Ok(
        AssetConfigResponse {
            token: asset_config.token,
            min_collateral_ratio: asset_config.min_collateral_ratio,
            end_price: asset_config.end_price,
        },
    )
}

/// The position under `position_idx`.
pub fn query_position(storage: &Ledger, position_idx: u128) -> (r: Result<
    PositionResponse,
    ContractError,
>)
    ensures
        match r {
            Ok(response) => storage@.positions.contains_key(position_idx)
                && storage@.positions[position_idx] == (PositionView {
                idx: response.idx,
                owner: response.owner@,
                collateral: response.collateral@,
                asset: response.asset@,
            }),
            Err(e) => !storage@.positions.contains_key(position_idx) && e
                == ContractError::PositionNotFound,
        },
{
    let position = match read_position(storage, position_idx) {
        Err(e) => { return Err(e); },
        Ok(position) => position,
    };
    Ok(
        PositionResponse {
            idx: position.idx,
            owner: position.owner,
            collateral: position.collateral,
            asset: position.asset,
        },
    )
}

/// The identifier that the next new position gets.
pub fn query_next_position_idx(storage: &Ledger) -> (r: Result<u128, ContractError>)
    ensures
        match storage@.position_idx {
            Some(idx) => r == Ok::<u128, ContractError>(idx),
            None => r == Err::<u128, ContractError>(ContractError::NotInitialized),
        },
{
    read_position_idx(storage)
}

} // verus!
