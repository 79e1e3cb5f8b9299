//! The four operations on a position: open, deposit, withdraw and mint.
//!
//! Each is a function of the ledger, the caller's inputs and the oracles' answers. Its
//! outcome is described by a spec function over the ledger's view, check by check in
//! the order in which a failure is reported. An operation that fails leaves the ledger
//! as it was.

use crate::asserts::{
    asset_check, assert_asset, assert_collateral, assert_migrated_asset,
    assert_revoked_collateral, assert_target_ratio, collateral_check, migrated_check,
    revoked_check, target_ratio_check,
};
use crate::asset::{Asset, AssetInfo, AssetInfoView, AssetView};
use crate::error::{ContractError, OracleError, RegistryError, ValidationError};
use crate::laws::{
    lemma_deposit_keeps_consistency, lemma_mint_keeps_consistency,
    lemma_open_position_is_covered, lemma_open_position_keeps_consistency,
    lemma_withdraw_keeps_consistency,
};
use crate::math::{
    amount_times, decimal_division, multiply_amount, reverse_decimal,
    ArithmeticError, Decimal, DECIMAL_FRACTIONAL,
};
use crate::querier::{
    asset_price_of, collateral_info_of, load_asset_price, load_collateral_info, CollateralInfo,
};
use crate::response::{
    Action, Attribute, AttributeView, Instruction, InstructionView, Response, ResponseView,
};
use crate::solvency::{assert_min_collateral_ratio, collateral_ratio_check, covers};
use crate::state::{
    create_position, read_asset_config, read_config, read_position, read_position_idx,
    store_position, store_position_idx, AssetConfig, AssetConfigView, Ledger, LedgerView,
    Position, PositionView,
};
use vstd::prelude::*;

verus! {

/// The ledger and the response after a successful operation.
#[verifier::ext_equal]
pub struct Outcome {
    pub ledger: LedgerView,
    pub response: ResponseView,
}

/// The registry entry of a synthetic asset. Only a token can be registered.
pub open spec fn registered(ledger: LedgerView, asset_info: AssetInfoView) -> Result<
    AssetConfigView,
    ContractError,
> {
    match asset_info {
        AssetInfoView::Token { contract_addr } => {
            if ledger.asset_configs.contains_key(contract_addr) {
                Ok(ledger.asset_configs[contract_addr])
            } else {
                Err(ContractError::Registry(RegistryError::UnknownAsset))
            }
        },
        AssetInfoView::NativeToken { .. } => Err(
            ContractError::Registry(RegistryError::UnknownAsset),
        ),
    }
}

/// Whether the synthetic asset is registered and has been migrated.
pub open spec fn is_migrated(ledger: LedgerView, asset_info: AssetInfoView) -> bool {
    registered(ledger, asset_info) is Ok && registered(ledger, asset_info)->Ok_0.end_price.is_some()
}

/// Whether the position under `position_idx` covers its debt at the given prices and
/// multiplier, and at the minimum ratio that its synthetic asset is registered with.
pub open spec fn position_is_covered(
    ledger: LedgerView,
    position_idx: u128,
    asset_price: Decimal,
    collateral_price: Decimal,
    multiplier: Decimal,
) -> bool {
    &&& ledger.positions.contains_key(position_idx)
    &&& registered(ledger, ledger.positions[position_idx].asset.info) is Ok
    &&& covers(
        ledger.positions[position_idx].collateral.amount,
        ledger.positions[position_idx].asset.amount,
        asset_price,
        collateral_price,
        registered(ledger, ledger.positions[position_idx].asset.info)->Ok_0.min_collateral_ratio,
        multiplier,
    )
}

/// The amount that opening a position mints:
/// `collateral_amount * (collateral_price / asset_price) * (1 / collateral_ratio)`.
///
/// The price ratio and the reciprocal are rounded down to eighteen digits, and each
/// product, from left to right, down to whole units.
pub open spec fn mint_amount_for(
    collateral_amount: u128,
    collateral_price: Decimal,
    asset_price: Decimal,
    collateral_ratio: Decimal,
) -> Result<u128, ArithmeticError> {
    match collateral_price.quotient(asset_price) {
        Err(e) => Err(e),
        Ok(price_in_asset) => match amount_times(collateral_amount, price_in_asset) {
            Err(e) => Err(e),
            Ok(value) => match collateral_ratio.reciprocal() {
                Err(e) => Err(e),
                Ok(inverse_ratio) => amount_times(value, inverse_ratio),
            },
        },
    }
}

/// The ledger and the response once a position has been opened under `idx`.
pub open spec fn opened(
    ledger: LedgerView,
    idx: u128,
    sender: Seq<char>,
    collateral: AssetView,
    asset_info: AssetInfoView,
    token: Seq<char>,
    mint_amount: u128,
) -> Outcome {
    let minted = AssetView { info: asset_info, amount: mint_amount };
    let position = PositionView { idx, owner: sender, collateral, asset: minted };
    Outcome {
        ledger: LedgerView {
            position_idx: Some((idx + 1) as u128),
            ..ledger.with_new_position(idx, position)
        },
        response: ResponseView {
            messages: seq![InstructionView::Mint { token, recipient: sender, amount: mint_amount }],
            attributes: seq![
                AttributeView::Action(Action::OpenPosition),
                AttributeView::PositionIdx(idx),
                AttributeView::MintAmount(minted),
                AttributeView::CollateralAmount(collateral),
            ],
        },
    }
}

/// What opening a position gives.
///
/// In this order: the ledger must be configured; the collateral amount must not be
/// zero; the collateral oracle must answer, and the collateral must not be revoked; the
/// synthetic asset must be registered and must not be migrated; the ratio asked for
/// must be at least the asset's minimum ratio times the collateral's multiplier, the
/// product taken exactly; the price oracle must answer; the mint amount must exist and
/// must not be zero; the counter must be stored and must have a successor. Then the position is stored under
/// the counter's value, with the sender as owner, the collateral as given and the mint
/// amount as debt, the counter moves on by one, and the synthetic token is told to mint
/// the amount to the sender.
pub open spec fn open_position_outcome(
    ledger: LedgerView,
    sender: Seq<char>,
    collateral: AssetView,
    asset_info: AssetInfoView,
    collateral_ratio: Decimal,
    collateral_quote: Result<CollateralInfo, OracleError>,
    asset_quote: Result<Decimal, OracleError>,
) -> Result<Outcome, ContractError> {
    if ledger.config.is_none() {
        Err(ContractError::NotInitialized)
    } else if collateral.amount == 0 {
        Err(ContractError::Validation(ValidationError::WrongCollateral))
    } else {
        match collateral_info_of(collateral_quote) {
            Err(e) => Err(e),
            Ok(info) => match revoked_check(info) {
                Err(e) => Err(e),
                Ok((collateral_price, multiplier)) => match registered(ledger, asset_info) {
                    Err(e) => Err(e),
                    Ok(asset_config) => match migrated_check(asset_config) {
                        Err(e) => Err(e),
                        Ok(()) => open_position_at_ratio(
                            ledger,
                            sender,
                            collateral,
                            asset_info,
                            collateral_ratio,
                            collateral_price,
                            multiplier,
                            asset_config,
                            asset_quote,
                        ),
                    },
                },
            },
        }
    }
}

/// The second half of [`open_position_outcome`], from the check of the ratio on.
pub open spec fn open_position_at_ratio(
    ledger: LedgerView,
    sender: Seq<char>,
    collateral: AssetView,
    asset_info: AssetInfoView,
    collateral_ratio: Decimal,
    collateral_price: Decimal,
    multiplier: Decimal,
    asset_config: AssetConfigView,
    asset_quote: Result<Decimal, OracleError>,
) -> Result<Outcome, ContractError> {
    match target_ratio_check(collateral_ratio, asset_config.min_collateral_ratio, multiplier) {
        Err(e) => Err(e),
        Ok(()) => match asset_price_of(asset_quote) {
            Err(e) => Err(e),
            Ok(asset_price) => match mint_amount_for(
                collateral.amount,
                collateral_price,
                asset_price,
                collateral_ratio,
            ) {
                Err(e) => Err(ContractError::Arithmetic(e)),
                Ok(mint_amount) => if mint_amount == 0 {
                    Err(ContractError::Validation(ValidationError::MintAmountZero))
                } else {
                    match ledger.position_idx {
                        None => Err(ContractError::NotInitialized),
                        Some(idx) => if idx == u128::MAX {
                            Err(ContractError::Arithmetic(ArithmeticError::Overflow))
                        } else {
                            Ok(
                                opened(
                                    ledger,
                                    idx,
                                    sender,
                                    collateral,
                                    asset_info,
                                    asset_config.token,
                                    mint_amount,
                                ),
                            )
                        },
                    }
                },
            },
        },
    }
}

/// The position under `position_idx`, for its owner: the ledger must be configured,
/// the position must exist, and the sender must own it.
pub open spec fn owned_position(ledger: LedgerView, sender: Seq<char>, position_idx: u128) -> Result<
    PositionView,
    ContractError,
> {
    if ledger.config.is_none() {
        Err(ContractError::NotInitialized)
    } else if !ledger.positions.contains_key(position_idx) {
        Err(ContractError::PositionNotFound)
    } else if sender != ledger.positions[position_idx].owner {
        Err(ContractError::Unauthorized)
    } else {
        Ok(ledger.positions[position_idx])
    }
}

/// `position` with another amount of collateral.
pub open spec fn with_collateral_amount(position: PositionView, amount: u128) -> PositionView {
    PositionView { collateral: AssetView { amount, ..position.collateral }, ..position }
}

/// `position` with another amount of debt.
pub open spec fn with_asset_amount(position: PositionView, amount: u128) -> PositionView {
    PositionView { asset: AssetView { amount, ..position.asset }, ..position }
}

/// What a deposit gives.
///
/// In this order: the ledger must be configured, the position must exist and the sender
/// must own it; the collateral must be the position's collateral asset, in a non-zero
/// amount; the collateral oracle must answer, and the collateral must not be revoked;
/// the position's synthetic asset must be registered and must not be migrated; the new
/// balance must fit in 128 bits. Then the position's collateral grows by the amount.
/// Nothing is sent: the collateral has reached the ledger's account before the call.
pub open spec fn deposit_outcome(
    ledger: LedgerView,
    sender: Seq<char>,
    position_idx: u128,
    collateral: AssetView,
    collateral_quote: Result<CollateralInfo, OracleError>,
) -> Result<Outcome, ContractError> {
    match owned_position(ledger, sender, position_idx) {
        Err(e) => Err(e),
        Ok(position) => match collateral_check(position, collateral) {
            Err(e) => Err(e),
            Ok(()) => match collateral_info_of(collateral_quote) {
                Err(e) => Err(e),
                Ok(info) => match revoked_check(info) {
                    Err(e) => Err(e),
                    Ok(_) => match registered(ledger, position.asset.info) {
                        Err(e) => Err(e),
                        Ok(asset_config) => match migrated_check(asset_config) {
                            Err(e) => Err(e),
                            Ok(()) => if position.collateral.amount + collateral.amount
                                > u128::MAX {
                                Err(ContractError::Arithmetic(ArithmeticError::Overflow))
                            } else {
                                Ok(
                                    Outcome {
                                        ledger: ledger.with_position(
                                            position_idx,
                                            with_collateral_amount(
                                                position,
                                                (position.collateral.amount
                                                    + collateral.amount) as u128,
                                            ),
                                        ),
                                        response: ResponseView {
                                            messages: seq![],
                                            attributes: seq![
                                                AttributeView::Action(Action::Deposit),
                                                AttributeView::PositionIdx(position_idx),
                                                AttributeView::DepositAmount(collateral),
                                            ],
                                        },
                                    },
                                )
                            },
                        },
                    },
                },
            },
        },
    }
}

/// The collateral that a withdrawal takes out. Without a request it is the whole
/// balance. A request must name the position's collateral asset, in a non-zero amount
/// that the balance covers.
pub open spec fn withdrawn_collateral(
    position: PositionView,
    collateral: Option<AssetView>,
) -> Result<AssetView, ContractError> {
    match collateral {
        Some(collateral) => match collateral_check(position, collateral) {
            Err(e) => Err(e),
            Ok(()) => if position.collateral.amount < collateral.amount {
                Err(ContractError::Validation(ValidationError::ExcessiveWithdrawal))
            } else {
                Ok(collateral)
            },
        },
        None => Ok(position.collateral),
    }
}

/// The model of the collateral that a withdrawal asks for.
pub open spec fn requested(collateral: Option<Asset>) -> Option<AssetView> {
    match collateral {
        Some(collateral) => Some(collateral@),
        None => None,
    }
}

/// The multiplier that a withdrawal is judged by: one for a migrated asset, whatever
/// the oracle says, and the oracle's multiplier otherwise.
pub open spec fn withdraw_multiplier(asset_config: AssetConfigView, info: CollateralInfo) -> Decimal {
    if asset_config.end_price.is_some() {
        Decimal { atomics: DECIMAL_FRACTIONAL }
    } else {
        info.multiplier
    }
}

/// What a withdrawal gives.
///
/// In this order: the ledger must be configured, the position must exist and the sender
/// must own it; the collateral to take out must be acceptable (see
/// [`withdrawn_collateral`]); the position's synthetic asset must be registered; the
/// price oracle must answer; the collateral oracle must answer; what is left must cover
/// the debt as it stands (see [`collateral_ratio_check`]), with the multiplier of
/// [`withdraw_multiplier`]. Then the position's collateral shrinks by the amount, and
/// the collateral taken out is to be transferred to the owner.
///
/// The new balance is always stored, also when it is not zero, and a position whose
/// balances have both reached zero stays in the ledger and in its indices.
pub open spec fn withdraw_outcome(
    ledger: LedgerView,
    sender: Seq<char>,
    position_idx: u128,
    collateral: Option<AssetView>,
    collateral_quote: Result<CollateralInfo, OracleError>,
    asset_quote: Result<Decimal, OracleError>,
) -> Result<Outcome, ContractError> {
    match owned_position(ledger, sender, position_idx) {
        Err(e) => Err(e),
        Ok(position) => match withdrawn_collateral(position, collateral) {
            Err(e) => Err(e),
            Ok(withdrawn) => match registered(ledger, position.asset.info) {
                Err(e) => Err(e),
                Ok(asset_config) => match asset_price_of(asset_quote) {
                    Err(e) => Err(e),
                    Ok(asset_price) => match collateral_info_of(collateral_quote) {
                        Err(e) => Err(e),
                        Ok(info) => {
                            let remaining = (position.collateral.amount
                                - withdrawn.amount) as u128;
                            match collateral_ratio_check(
                                remaining,
                                position.asset.amount,
                                asset_price,
                                info.price,
                                asset_config.min_collateral_ratio,
                                withdraw_multiplier(asset_config, info),
                            ) {
                                Err(e) => Err(e),
                                Ok(()) => Ok(
                                    Outcome {
                                        ledger: ledger.with_position(
                                            position_idx,
                                            with_collateral_amount(position, remaining),
                                        ),
                                        response: ResponseView {
                                            messages: seq![
                                                InstructionView::Transfer {
                                                    recipient: position.owner,
                                                    asset: withdrawn,
                                                },
                                            ],
                                            attributes: seq![
                                                AttributeView::Action(Action::Withdraw),
                                                AttributeView::PositionIdx(position_idx),
                                                AttributeView::WithdrawAmount(withdrawn),
                                            ],
                                        },
                                    },
                                ),
                            }
                        },
                    },
                },
            },
        },
    }
}

/// What minting gives.
///
/// In this order: the ledger must be configured, the position must exist and the sender
/// must own it; the asset must be the position's synthetic asset, in a non-zero amount;
/// that asset must be registered and must not be migrated; the collateral oracle must
/// answer, and the collateral must not be revoked; the price oracle must answer; the
/// new debt must fit in 128 bits; the collateral must cover the new debt (see
/// [`collateral_ratio_check`]), with the oracle's multiplier. Then the position's debt
/// grows by the amount, and the synthetic token is told to mint the amount to the owner.
pub open spec fn mint_outcome(
    ledger: LedgerView,
    sender: Seq<char>,
    position_idx: u128,
    asset: AssetView,
    collateral_quote: Result<CollateralInfo, OracleError>,
    asset_quote: Result<Decimal, OracleError>,
) -> Result<Outcome, ContractError> {
    match owned_position(ledger, sender, position_idx) {
        Err(e) => Err(e),
        Ok(position) => match asset_check(position, asset) {
            Err(e) => Err(e),
            Ok(()) => match registered(ledger, position.asset.info) {
                Err(e) => Err(e),
                Ok(asset_config) => match migrated_check(asset_config) {
                    Err(e) => Err(e),
                    Ok(()) => match collateral_info_of(collateral_quote) {
                        Err(e) => Err(e),
                        Ok(info) => match revoked_check(info) {
                            Err(e) => Err(e),
                            Ok((collateral_price, multiplier)) => mint_at_prices(
                                ledger,
                                position_idx,
                                position,
                                asset,
                                asset_config,
                                collateral_price,
                                multiplier,
                                asset_quote,
                            ),
                        },
                    },
                },
            },
        },
    }
}

/// The second half of [`mint_outcome`], from the price oracle's answer on.
pub open spec fn mint_at_prices(
    ledger: LedgerView,
    position_idx: u128,
    position: PositionView,
    asset: AssetView,
    asset_config: AssetConfigView,
    collateral_price: Decimal,
    multiplier: Decimal,
    asset_quote: Result<Decimal, OracleError>,
) -> Result<Outcome, ContractError> {
    match asset_price_of(asset_quote) {
        Err(e) => Err(e),
        Ok(asset_price) => if asset.amount + position.asset.amount > u128::MAX {
            Err(ContractError::Arithmetic(ArithmeticError::Overflow))
        } else {
            let asset_amount = (asset.amount + position.asset.amount) as u128;
            match collateral_ratio_check(
                position.collateral.amount,
                asset_amount,
                asset_price,
                collateral_price,
                asset_config.min_collateral_ratio,
                multiplier,
            ) {
                Err(e) => Err(e),
                Ok(()) => Ok(
                    Outcome {
                        ledger: ledger.with_position(
                            position_idx,
                            with_asset_amount(position, asset_amount),
                        ),
                        response: ResponseView {
                            messages: seq![
                                InstructionView::Mint {
                                    token: asset_config.token,
                                    recipient: position.owner,
                                    amount: asset.amount,
                                },
                            ],
                            attributes: seq![
                                AttributeView::Action(Action::Mint),
                                AttributeView::PositionIdx(position_idx),
                                AttributeView::MintAmount(asset),
                            ],
                        },
                    },
                ),
            }
        },
    }
}

/// Whether an operation's result and the ledger it leaves are what `outcome` says:
/// on success the ledger and the response of the outcome, on failure its error and the
/// ledger as it was.
pub open spec fn agrees(
    result: Result<Response, ContractError>,
    before: LedgerView,
    after: LedgerView,
    outcome: Result<Outcome, ContractError>,
) -> bool {
    match result {
        Ok(response) => outcome matches Ok(o) && o.ledger == after && o.response == response@,
        Err(e) => outcome == Err::<Outcome, ContractError>(e) && after == before,
    }
}

/// Looks a synthetic asset up in the registry.
fn read_registered(storage: &Ledger, asset_info: &AssetInfo) -> (r: Result<
    AssetConfig,
    ContractError,
>)
    ensures
        match r {
            Ok(config) => registered(storage@, asset_info@) == Ok::<
                AssetConfigView,
                ContractError,
            >(config@),
            Err(e) => registered(storage@, asset_info@) == Err::<AssetConfigView, ContractError>(e),
        },
{
    match asset_info {
        AssetInfo::Token { contract_addr } => read_asset_config(storage, contract_addr.as_str()),
        AssetInfo::NativeToken { .. } => Err(ContractError::Registry(RegistryError::UnknownAsset)),
    }
}

/// Reads the position under `position_idx` for `sender`.
fn read_owned_position(storage: &Ledger, sender: &String, position_idx: u128) -> (r: Result<
    Position,
    ContractError,
>)
    ensures
        match r {
            Ok(position) => owned_position(storage@, sender@, position_idx) == Ok::<
                PositionView,
                ContractError,
            >(position@),
            Err(e) => owned_position(storage@, sender@, position_idx) == Err::<
                PositionView,
                ContractError,
            >(e),
        },
{
    match read_config(storage) {
        Err(e) => { return Err(e); },
        Ok(_) => {},
    }
    let position = match read_position(storage, position_idx) {
        Err(e) => { return Err(e); },
        Ok(position) => position,
    };
    if !(*sender == position.owner) {
        return Err(ContractError::Unauthorized);
    }
    Ok(position)
}

/// Computes the amount that opening a position mints.
fn compute_mint_amount(
    collateral_amount: u128,
    collateral_price: Decimal,
    asset_price: Decimal,
    collateral_ratio: Decimal,
) -> (r: Result<u128, ArithmeticError>)
    ensures
        r == mint_amount_for(collateral_amount, collateral_price, asset_price, collateral_ratio),
{
    let price_in_asset = match decimal_division(collateral_price, asset_price) {
        Ok(d) => d,
        Err(e) => { return Err(e); },
    };
    let value: u128 = match multiply_amount(collateral_amount, price_in_asset) {
        Ok(v) => v,
        Err(e) => { return Err(e); },
    };
    let inverse_ratio = match reverse_decimal(collateral_ratio) {
        Ok(d) => d,
        Err(e) => { return Err(e); },
    };
    multiply_amount(value, inverse_ratio)
}

/// Opens a position for `sender`: locks `collateral` and mints as much of the synthetic
/// asset `asset_info` as `collateral_ratio` allows.
///
/// `collateral_quote` is the collateral oracle's answer for the collateral asset and
/// `asset_quote` the price oracle's answer for the synthetic asset, both asked for
/// fresh quotes.
pub fn open_position(
    storage: &mut Ledger,
    sender: String,
    collateral: Asset,
    asset_info: AssetInfo,
    collateral_ratio: Decimal,
    collateral_quote: Result<CollateralInfo, OracleError>,
    asset_quote: Result<Decimal, OracleError>,
) -> (r: Result<Response, ContractError>)
    ensures
        agrees(
            r,
            old(storage)@,
            final(storage)@,
            open_position_outcome(
                old(storage)@,
                sender@,
                collateral@,
                asset_info@,
                collateral_ratio,
                collateral_quote,
                asset_quote,
            ),
        ),
        old(storage)@.consistent() ==> final(storage)@.consistent(),
        // The new position gets the counter's value, and the counter moves on by one.
        r is Ok ==> {
            &&& old(storage)@.position_idx is Some
            &&& old(storage)@.position_idx->Some_0 < u128::MAX
            &&& final(storage)@.position_idx == Some(
                (old(storage)@.position_idx->Some_0 + 1) as u128,
            )
            &&& final(storage)@.positions.contains_key(old(storage)@.position_idx->Some_0)
            &&& final(storage)@.positions[old(storage)@.position_idx->Some_0].idx == old(
                storage,
            )@.position_idx->Some_0
        },
        // The collateral locked covers the debt minted at the prices quoted.
        r is Ok ==> {
            &&& collateral_quote is Ok
            &&& asset_quote is Ok
            &&& position_is_covered(
                final(storage)@,
                old(storage)@.position_idx->Some_0,
                asset_quote->Ok_0,
                collateral_quote->Ok_0.price,
                collateral_quote->Ok_0.multiplier,
            )
        },
        // A migrated asset takes no new position.
        is_migrated(old(storage)@, asset_info@) ==> r is Err,
{
    match read_config(storage) {
        Err(e) => { return Err(e); },
        Ok(_) => {},
    }
    if collateral.amount == 0 {
        return Err(ContractError::Validation(ValidationError::WrongCollateral));
    }
    let info = match load_collateral_info(collateral_quote) {
        Err(e) => { return Err(e); },
        Ok(info) => info,
    };
    let (collateral_price, multiplier) = match assert_revoked_collateral(info) {
        Err(e) => { return Err(e); },
        Ok(pair) => pair,
    };
    let asset_config = match read_registered(storage, &asset_info) {
        Err(e) => { return Err(e); },
        Ok(config) => config,
    };
    match assert_migrated_asset(&asset_config) {
        Err(e) => { return Err(e); },
        Ok(()) => {},
    }
    match assert_target_ratio(collateral_ratio, asset_config.min_collateral_ratio, multiplier) {
        Err(e) => { return Err(e); },
        Ok(()) => {},
    }
    let asset_price = match load_asset_price(asset_quote) {
        Err(e) => { return Err(e); },
        Ok(price) => price,
    };
    let mint_amount: u128 = match compute_mint_amount(
        collateral.amount,
        collateral_price,
        asset_price,
        collateral_ratio,
    ) {
        Err(e) => { return Err(ContractError::Arithmetic(e)); },
        Ok(amount) => amount,
    };
    if mint_amount == 0 {
        return Err(ContractError::Validation(ValidationError::MintAmountZero));
    }
    let position_idx: u128 = match read_position_idx(storage) {
        Err(e) => { return Err(e); },
        Ok(idx) => idx,
    };
    if position_idx == u128::MAX {
        return Err(ContractError::Arithmetic(ArithmeticError::Overflow));
    }
    let minted = Asset { info: asset_info, amount: mint_amount };
    let position = Position {
        idx: position_idx,
        owner: sender.clone(),
        collateral: collateral.clone(),
        asset: minted.clone(),
    };
    create_position(storage, position_idx, &position);
    store_position_idx(storage, position_idx + 1);

    let mut response = Response::new();
    response.add_attribute(Attribute::Action(Action::OpenPosition));
    response.add_attribute(Attribute::PositionIdx(position_idx));
    response.add_attribute(Attribute::MintAmount(minted));
    response.add_attribute(Attribute::CollateralAmount(collateral));
    response.add_message(
        Instruction::Mint { token: asset_config.token, recipient: sender, amount: mint_amount },
    );
    proof {
        let expected = opened(
            old(storage)@,
            position_idx,
            sender@,
            collateral@,
            asset_info@,
            asset_config@.token,
            mint_amount,
        );
        assert(response@.messages =~= expected.response.messages);
        assert(response@.attributes =~= expected.response.attributes);
        assert(final(storage)@ =~= expected.ledger);
        lemma_open_position_is_covered(
            old(storage)@,
            sender@,
            collateral@,
            asset_info@,
            collateral_ratio,
            collateral_quote->Ok_0,
            asset_quote->Ok_0,
        );
        if old(storage)@.consistent() {
            lemma_open_position_keeps_consistency(
                old(storage)@,
                sender@,
                collateral@,
                asset_info@,
                collateral_ratio,
                collateral_quote,
                asset_quote,
            );
        }
    }
    Ok(response)
}

/// Adds `collateral` to the position under `position_idx`, for its owner.
///
/// `collateral_quote` is the collateral oracle's answer for the position's collateral
/// asset; a quote that is not fresh will do.
pub fn deposit(
    storage: &mut Ledger,
    sender: String,
    position_idx: u128,
    collateral: Asset,
    collateral_quote: Result<CollateralInfo, OracleError>,
) -> (r: Result<Response, ContractError>)
    ensures
        agrees(
            r,
            old(storage)@,
            final(storage)@,
            deposit_outcome(old(storage)@, sender@, position_idx, collateral@, collateral_quote),
        ),
        old(storage)@.consistent() ==> final(storage)@.consistent(),
        // The collateral grows by the amount, which is not zero; the debt stays.
        r is Ok ==> {
            &&& old(storage)@.positions.contains_key(position_idx)
            &&& final(storage)@.positions.contains_key(position_idx)
            &&& final(storage)@.positions[position_idx].collateral.amount == old(
                storage,
            )@.positions[position_idx].collateral.amount + collateral.amount
            &&& final(storage)@.positions[position_idx].collateral.amount > old(
                storage,
            )@.positions[position_idx].collateral.amount
            &&& final(storage)@.positions[position_idx].asset == old(
                storage,
            )@.positions[position_idx].asset
        },
        // A position in a migrated asset takes no deposit.
        old(storage)@.positions.contains_key(position_idx) && is_migrated(
            old(storage)@,
            old(storage)@.positions[position_idx].asset.info,
        ) ==> r is Err,
{
    let mut position = match read_owned_position(storage, &sender, position_idx) {
        Err(e) => { return Err(e); },
        Ok(position) => position,
    };
    match assert_collateral(&position, &collateral) {
        Err(e) => { return Err(e); },
        Ok(()) => {},
    }
    let info = match load_collateral_info(collateral_quote) {
        Err(e) => { return Err(e); },
        Ok(info) => info,
    };
    match assert_revoked_collateral(info) {
        Err(e) => { return Err(e); },
        Ok(_) => {},
    }
    let asset_config = match read_registered(storage, &position.asset.info) {
        Err(e) => { return Err(e); },
        Ok(config) => config,
    };
    match assert_migrated_asset(&asset_config) {
        Err(e) => { return Err(e); },
        Ok(()) => {},
    }
    if collateral.amount > u128::MAX - position.collateral.amount {
        return Err(ContractError::Arithmetic(ArithmeticError::Overflow));
    }
    position.collateral.amount = position.collateral.amount + collateral.amount;
    store_position(storage, position_idx, &position);

    let mut response = Response::new();
    response.add_attribute(Attribute::Action(Action::Deposit));
    response.add_attribute(Attribute::PositionIdx(position_idx));
    response.add_attribute(Attribute::DepositAmount(collateral));
    proof {
        let expected = deposit_outcome(
            old(storage)@,
            sender@,
            position_idx,
            collateral@,
            collateral_quote,
        )->Ok_0;
        assert(response@.messages =~= expected.response.messages);
        assert(response@.attributes =~= expected.response.attributes);
        assert(final(storage)@ =~= expected.ledger);
        if old(storage)@.consistent() {
            lemma_deposit_keeps_consistency(
                old(storage)@,
                sender@,
                position_idx,
                collateral@,
                collateral_quote,
            );
        }
    }
    Ok(response)
}

/// Takes collateral out of the position under `position_idx`, for its owner: the
/// amount asked for, or the whole balance where `collateral` is `None`.
///
/// `collateral_quote` is the collateral oracle's answer for the position's collateral
/// asset and `asset_quote` the price oracle's answer for its synthetic asset, both
/// asked for fresh quotes. The new balance is stored whatever it is, and the position
/// stays in the ledger also when nothing is left in it.
pub fn withdraw(
    storage: &mut Ledger,
    sender: String,
    position_idx: u128,
    collateral: Option<Asset>,
    collateral_quote: Result<CollateralInfo, OracleError>,
    asset_quote: Result<Decimal, OracleError>,
) -> (r: Result<Response, ContractError>)
    ensures
        agrees(
            r,
            old(storage)@,
            final(storage)@,
            withdraw_outcome(
                old(storage)@,
                sender@,
                position_idx,
                requested(collateral),
                collateral_quote,
                asset_quote,
            ),
        ),
        old(storage)@.consistent() ==> final(storage)@.consistent(),
        // What is left covers the debt at the prices quoted: at a multiplier of one
        // where the asset has been migrated, at the oracle's otherwise.
        r is Ok ==> {
            &&& collateral_quote is Ok
            &&& asset_quote is Ok
            &&& position_is_covered(
                final(storage)@,
                position_idx,
                asset_quote->Ok_0,
                collateral_quote->Ok_0.price,
                if is_migrated(
                    old(storage)@,
                    old(storage)@.positions[position_idx].asset.info,
                ) {
                    Decimal { atomics: DECIMAL_FRACTIONAL }
                } else {
                    collateral_quote->Ok_0.multiplier
                },
            )
            &&& old(storage)@.positions.contains_key(position_idx)
            &&& final(storage)@.positions[position_idx].asset == old(
                storage,
            )@.positions[position_idx].asset
            &&& final(storage)@.positions[position_idx].collateral.amount <= old(
                storage,
            )@.positions[position_idx].collateral.amount
        },
{
    let ghost request = requested(collateral);
    let mut position = match read_owned_position(storage, &sender, position_idx) {
        Err(e) => { return Err(e); },
        Ok(position) => position,
    };
    let withdrawn = match collateral {
        Some(collateral) => {
            match assert_collateral(&position, &collateral) {
                Err(e) => { return Err(e); },
                Ok(()) => {},
            }
            if position.collateral.amount < collateral.amount {
                return Err(ContractError::Validation(ValidationError::ExcessiveWithdrawal));
            }
            collateral
        },
        None => position.collateral.clone(),
    };
    let asset_config = match read_registered(storage, &position.asset.info) {
        Err(e) => { return Err(e); },
        Ok(config) => config,
    };
    let asset_price = match load_asset_price(asset_quote) {
        Err(e) => { return Err(e); },
        Ok(price) => price,
    };
    let info = match load_collateral_info(collateral_quote) {
        Err(e) => { return Err(e); },
        Ok(info) => info,
    };
    let multiplier = if asset_config.end_price.is_some() {
        Decimal::one()
    } else {
        info.multiplier
    };
    let remaining: u128 = position.collateral.amount - withdrawn.amount;
    match assert_min_collateral_ratio(
        remaining,
        position.asset.amount,
        asset_price,
        info.price,
        asset_config.min_collateral_ratio,
        multiplier,
    ) {
        Err(e) => { return Err(e); },
        Ok(()) => {},
    }
    position.collateral.amount = remaining;
    store_position(storage, position_idx, &position);

    let mut response = Response::new();
    response.add_attribute(Attribute::Action(Action::Withdraw));
    response.add_attribute(Attribute::PositionIdx(position_idx));
    response.add_attribute(Attribute::WithdrawAmount(withdrawn.clone()));
    response.add_message(Instruction::Transfer { recipient: position.owner, asset: withdrawn });
    proof {
        let expected = withdraw_outcome(
            old(storage)@,
            sender@,
            position_idx,
            request,
            collateral_quote,
            asset_quote,
        )->Ok_0;
        assert(response@.messages =~= expected.response.messages);
        assert(response@.attributes =~= expected.response.attributes);
        assert(final(storage)@ =~= expected.ledger);
        if old(storage)@.consistent() {
            lemma_withdraw_keeps_consistency(
                old(storage)@,
                sender@,
                position_idx,
                request,
                collateral_quote,
                asset_quote,
            );
        }
    }
    Ok(response)
}

/// Mints `asset` against the position under `position_idx`, for its owner.
///
/// `collateral_quote` is the collateral oracle's answer for the position's collateral
/// asset and `asset_quote` the price oracle's answer for its synthetic asset, both
/// asked for fresh quotes.
pub fn mint(
    storage: &mut Ledger,
    sender: String,
    position_idx: u128,
    asset: Asset,
    collateral_quote: Result<CollateralInfo, OracleError>,
    asset_quote: Result<Decimal, OracleError>,
) -> (r: Result<Response, ContractError>)
    ensures
        agrees(
            r,
            old(storage)@,
            final(storage)@,
            mint_outcome(
                old(storage)@,
                sender@,
                position_idx,
                asset@,
                collateral_quote,
                asset_quote,
            ),
        ),
        old(storage)@.consistent() ==> final(storage)@.consistent(),
        // The collateral covers the new debt at the prices quoted and at the oracle's
        // multiplier.
        r is Ok ==> {
            &&& collateral_quote is Ok
            &&& asset_quote is Ok
            &&& position_is_covered(
                final(storage)@,
                position_idx,
                asset_quote->Ok_0,
                collateral_quote->Ok_0.price,
                collateral_quote->Ok_0.multiplier,
            )
            &&& old(storage)@.positions.contains_key(position_idx)
            &&& final(storage)@.positions[position_idx].asset.amount == old(
                storage,
            )@.positions[position_idx].asset.amount + asset.amount
            &&& final(storage)@.positions[position_idx].collateral == old(
                storage,
            )@.positions[position_idx].collateral
        },
        // Nothing is minted against a position in a migrated asset.
        old(storage)@.positions.contains_key(position_idx) && is_migrated(
            old(storage)@,
            old(storage)@.positions[position_idx].asset.info,
        ) ==> r is Err,
{
    let mint_amount: u128 = asset.amount;
    let mut position = match read_owned_position(storage, &sender, position_idx) {
        Err(e) => { return Err(e); },
        Ok(position) => position,
    };
    match assert_asset(&position, &asset) {
        Err(e) => { return Err(e); },
        Ok(()) => {},
    }
    let asset_config = match read_registered(storage, &position.asset.info) {
        Err(e) => { return Err(e); },
        Ok(config) => config,
    };
    match assert_migrated_asset(&asset_config) {
        Err(e) => { return Err(e); },
        Ok(()) => {},
    }
    let info = match load_collateral_info(collateral_quote) {
        Err(e) => { return Err(e); },
        Ok(info) => info,
    };
    let (collateral_price, multiplier) = match assert_revoked_collateral(info) {
        Err(e) => { return Err(e); },
        Ok(pair) => pair,
    };
    let asset_price = match load_asset_price(asset_quote) {
        Err(e) => { return Err(e); },
        Ok(price) => price,
    };
    if mint_amount > u128::MAX - position.asset.amount {
        return Err(ContractError::Arithmetic(ArithmeticError::Overflow));
    }
    let asset_amount: u128 = mint_amount + position.asset.amount;
    match assert_min_collateral_ratio(
        position.collateral.amount,
        asset_amount,
        asset_price,
        collateral_price,
        asset_config.min_collateral_ratio,
        multiplier,
    ) {
        Err(e) => { return Err(e); },
        Ok(()) => {},
    }
    position.asset.amount = asset_amount;
    store_position(storage, position_idx, &position);

    let mut response = Response::new();
    response.add_attribute(Attribute::Action(Action::Mint));
    response.add_attribute(Attribute::PositionIdx(position_idx));
    response.add_attribute(Attribute::MintAmount(asset));
    response.add_message(
        Instruction::Mint {
            token: asset_config.token,
            recipient: position.owner,
            amount: mint_amount,
        },
    );
    proof {
        let expected = mint_outcome(
            old(storage)@,
            sender@,
            position_idx,
            asset@,
            collateral_quote,
            asset_quote,
        )->Ok_0;
        assert(response@.messages =~= expected.response.messages);
        assert(response@.attributes =~= expected.response.attributes);
        assert(final(storage)@ =~= expected.ledger);
        if old(storage)@.consistent() {
            lemma_mint_keeps_consistency(
                old(storage)@,
                sender@,
                position_idx,
                asset@,
                collateral_quote,
                asset_quote,
            );
        }
    }
    Ok(response)
}

} // verus!
