//! What holds of the operations, for every ledger and every input.

use crate::asserts::{asset_check, collateral_check};
use crate::asset::{AssetInfoView, AssetView};
use crate::contract::execute_outcome;
use crate::error::{ContractError, OracleError, RegistryError};
use crate::math::{ratio_floor, Decimal, DECIMAL_FRACTIONAL};
use crate::msg::ExecuteMsg;
use crate::positions::{
    deposit_outcome, is_migrated, mint_amount_for, mint_outcome, open_position_outcome,
    owned_position, position_is_covered, registered, requested, withdraw_multiplier,
    withdraw_outcome, withdrawn_collateral, Outcome,
};
use crate::querier::CollateralInfo;
use crate::response::AttributeView;
use crate::solvency::{collateral_weight, covers, debt_weight, is_required_collateral};
use crate::state::LedgerView;
use vstd::arithmetic::div_mod::{lemma_div_pos_is_pos, lemma_fundamental_div_mod, lemma_mod_bound};
use vstd::arithmetic::mul::{
    lemma_mul_inequality, lemma_mul_inequality_converse, lemma_mul_nonnegative,
};
use vstd::prelude::*;

verus! {

/// A quotient rounded down, times the denominator, is at most the numerator.
proof fn lemma_ratio_floor_bounds(value: int, numerator: int, denominator: int)
    requires
        0 <= value,
        0 <= numerator,
        0 < denominator,
    ensures
        0 <= ratio_floor(value, numerator, denominator),
        ratio_floor(value, numerator, denominator) * denominator <= value * numerator,
{
    let x = value * numerator;
    lemma_mul_nonnegative(value, numerator);
    lemma_fundamental_div_mod(x, denominator);
    lemma_mod_bound(x, denominator);
    lemma_div_pos_is_pos(x, denominator);
    assert(denominator * (x / denominator) == (x / denominator) * denominator)
        by (nonlinear_arith);
}

/// From `x * k <= y * z` and `z * w <= u * k` follows `x * w <= y * u`.
proof fn lemma_cross(x: int, k: int, y: int, z: int, w: int, u: int)
    requires
        0 <= x,
        0 <= y,
        0 <= z,
        0 <= w,
        0 <= u,
        0 < k,
        x * k <= y * z,
        z * w <= u * k,
    ensures
        x * w <= y * u,
{
    lemma_mul_inequality(x * k, y * z, w);
    lemma_mul_inequality(z * w, u * k, y);
    assert((x * w) * k == (x * k) * w) by (nonlinear_arith);
    assert((y * z) * w == (z * w) * y) by (nonlinear_arith);
    assert((u * k) * y == (y * u) * k) by (nonlinear_arith);
    lemma_mul_inequality_converse(x * w, y * u, k);
}

/// The arithmetic behind [`lemma_open_position_is_covered`], over the integers: what
/// opening mints, each step a quotient rounded down, weighs no more than the collateral
/// where the ratio is at least the minimum ratio times the multiplier.
proof fn lemma_minted_debt_is_covered(
    collateral: int,
    collateral_price: int,
    asset_price: int,
    ratio: int,
    minimum: int,
    multiplier: int,
    unit: int,
)
    requires
        0 <= collateral,
        0 <= collateral_price,
        0 < asset_price,
        0 < ratio,
        0 <= minimum,
        0 <= multiplier,
        0 < unit,
        minimum * multiplier <= ratio * unit,
    ensures
        ({
            let price_in_asset = ratio_floor(collateral_price, unit, asset_price);
            let value = ratio_floor(collateral, price_in_asset, unit);
            let inverse_ratio = ratio_floor(unit, unit, ratio);
            let minted = ratio_floor(value, inverse_ratio, unit);
            &&& 0 <= minted
            &&& minted * asset_price * minimum * multiplier <= collateral * collateral_price * unit
                * unit
        }),
{
    let price_in_asset = ratio_floor(collateral_price, unit, asset_price);
    lemma_ratio_floor_bounds(collateral_price, unit, asset_price);
    let value = ratio_floor(collateral, price_in_asset, unit);
    lemma_ratio_floor_bounds(collateral, price_in_asset, unit);
    let inverse_ratio = ratio_floor(unit, unit, ratio);
    lemma_ratio_floor_bounds(unit, unit, ratio);
    let minted = ratio_floor(value, inverse_ratio, unit);
    lemma_ratio_floor_bounds(value, inverse_ratio, unit);

    // minted * ratio <= value * unit
    lemma_cross(minted, unit, value, inverse_ratio, ratio, unit);
    // value * asset_price <= collateral * collateral_price
    lemma_cross(value, unit, collateral, price_in_asset, asset_price, collateral_price);

    let debt = minted * asset_price;
    lemma_mul_nonnegative(minted, asset_price);
    lemma_mul_nonnegative(collateral, collateral_price);
    lemma_mul_nonnegative(asset_price, unit);
    lemma_mul_nonnegative(unit, unit);
    // debt * (minimum * multiplier) <= debt * (ratio * unit)
    lemma_mul_inequality(minimum * multiplier, ratio * unit, debt);
    // (minted * ratio) * (asset_price * unit) <= (value * unit) * (asset_price * unit)
    lemma_mul_inequality(minted * ratio, value * unit, asset_price * unit);
    // (value * asset_price) * (unit * unit) <= (collateral * collateral_price) * (unit * unit)
    lemma_mul_inequality(value * asset_price, collateral * collateral_price, unit * unit);
    assert(debt * minimum * multiplier == (minimum * multiplier) * debt) by (nonlinear_arith);
    assert((ratio * unit) * debt == (minted * ratio) * (asset_price * unit)) by (nonlinear_arith)
        requires
            debt == minted * asset_price,
    ;
    assert((value * unit) * (asset_price * unit) == (value * asset_price) * (unit * unit))
        by (nonlinear_arith);
    assert((collateral * collateral_price) * (unit * unit) == collateral * collateral_price * unit
        * unit) by (nonlinear_arith);
}

/// A position that has just been opened is covered at the prices at which it was
/// opened: the collateral locked is at least the debt minted, times the price of the
/// asset in collateral, times the minimum ratio, times the multiplier, all taken
/// exactly.
pub proof fn lemma_open_position_is_covered(
    ledger: LedgerView,
    sender: Seq<char>,
    collateral: AssetView,
    asset_info: AssetInfoView,
    collateral_ratio: Decimal,
    info: CollateralInfo,
    asset_price: Decimal,
)
    requires
        open_position_outcome(
            ledger,
            sender,
            collateral,
            asset_info,
            collateral_ratio,
            Ok(info),
            Ok(asset_price),
        ) is Ok,
    ensures
        ledger.position_idx is Some,
        position_is_covered(
            open_position_outcome(
                ledger,
                sender,
                collateral,
                asset_info,
                collateral_ratio,
                Ok(info),
                Ok(asset_price),
            )->Ok_0.ledger,
            ledger.position_idx->Some_0,
            asset_price,
            info.price,
            info.multiplier,
        ),
{
    let unit = DECIMAL_FRACTIONAL as int;
    let minimum = registered(ledger, asset_info)->Ok_0.min_collateral_ratio;
    let minted = mint_amount_for(collateral.amount, info.price, asset_price, collateral_ratio)->Ok_0;
    let price_in_asset = ratio_floor(info.price.atomics as int, unit, asset_price.atomics as int);
    let value = ratio_floor(collateral.amount as int, price_in_asset, unit);
    let inverse_ratio = ratio_floor(unit, unit, collateral_ratio.atomics as int);
    assert(asset_price.atomics != 0);
    assert(collateral_ratio.atomics != 0);
    assert(minted == ratio_floor(value, inverse_ratio, unit));
    assert(minted > 0);
    // A collateral without a price would have minted nothing.
    assert(info.price.atomics != 0) by {
        if info.price.atomics == 0 {
            assert(info.price.atomics as int * unit == 0) by (nonlinear_arith)
                requires
                    info.price.atomics == 0,
            ;
            assert(price_in_asset == 0);
            assert(collateral.amount as int * price_in_asset == 0) by (nonlinear_arith)
                requires
                    price_in_asset == 0,
            ;
            assert(value == 0);
            assert(value * inverse_ratio == 0) by (nonlinear_arith)
                requires
                    value == 0,
            ;
        }
    }
    lemma_minted_debt_is_covered(
        collateral.amount as int,
        info.price.atomics as int,
        asset_price.atomics as int,
        collateral_ratio.atomics as int,
        minimum.atomics as int,
        info.multiplier.atomics as int,
        unit,
    );
}

/// After a successful withdrawal, what is left covers the debt at the prices quoted:
/// with the oracle's multiplier, or with a multiplier of one where the synthetic asset
/// has been migrated.
pub proof fn lemma_withdraw_leaves_position_covered(
    ledger: LedgerView,
    sender: Seq<char>,
    position_idx: u128,
    collateral: Option<AssetView>,
    info: CollateralInfo,
    asset_price: Decimal,
)
    requires
        withdraw_outcome(ledger, sender, position_idx, collateral, Ok(info), Ok(asset_price)) is Ok,
    ensures
        ({
            let outcome = withdraw_outcome(
                ledger,
                sender,
                position_idx,
                collateral,
                Ok(info),
                Ok(asset_price),
            )->Ok_0;
            let position = outcome.ledger.positions[position_idx];
            let asset_config = registered(ledger, position.asset.info)->Ok_0;
            &&& outcome.ledger.positions.contains_key(position_idx)
            &&& covers(
                position.collateral.amount,
                position.asset.amount,
                asset_price,
                info.price,
                asset_config.min_collateral_ratio,
                withdraw_multiplier(asset_config, info),
            )
        }),
{
}

/// After a successful mint, the collateral covers the new debt at the prices quoted,
/// with the oracle's multiplier.
pub proof fn lemma_mint_leaves_position_covered(
    ledger: LedgerView,
    sender: Seq<char>,
    position_idx: u128,
    asset: AssetView,
    info: CollateralInfo,
    asset_price: Decimal,
)
    requires
        mint_outcome(ledger, sender, position_idx, asset, Ok(info), Ok(asset_price)) is Ok,
    ensures
        ({
            let outcome = mint_outcome(
                ledger,
                sender,
                position_idx,
                asset,
                Ok(info),
                Ok(asset_price),
            )->Ok_0;
            let position = outcome.ledger.positions[position_idx];
            let asset_config = registered(ledger, position.asset.info)->Ok_0;
            &&& outcome.ledger.positions.contains_key(position_idx)
            &&& covers(
                position.collateral.amount,
                position.asset.amount,
                asset_price,
                info.price,
                asset_config.min_collateral_ratio,
                info.multiplier,
            )
        }),
{
}

/// A deposit adds exactly the amount deposited, which is more than nothing, to the
/// position's collateral, and changes nothing else of the position: not its debt, its
/// owner, its assets or its identifier.
pub proof fn lemma_deposit_grows_collateral_only(
    ledger: LedgerView,
    sender: Seq<char>,
    position_idx: u128,
    collateral: AssetView,
    collateral_quote: Result<CollateralInfo, OracleError>,
)
    requires
        deposit_outcome(ledger, sender, position_idx, collateral, collateral_quote) is Ok,
    ensures
        ({
            let outcome = deposit_outcome(
                ledger,
                sender,
                position_idx,
                collateral,
                collateral_quote,
            )->Ok_0;
            let before = ledger.positions[position_idx];
            let after = outcome.ledger.positions[position_idx];
            &&& ledger.positions.contains_key(position_idx)
            &&& outcome.ledger.positions.contains_key(position_idx)
            &&& after.collateral.amount == before.collateral.amount + collateral.amount
            &&& after.collateral.amount > before.collateral.amount
            &&& after.collateral.info == before.collateral.info
            &&& after.asset == before.asset
            &&& after.owner == before.owner
            &&& after.idx == before.idx
        }),
{
}

/// A deposit never takes cover away: a position that covered its debt at some prices,
/// minimum ratio and multiplier still covers it at the same ones after a deposit.
pub proof fn lemma_deposit_keeps_position_covered(
    ledger: LedgerView,
    sender: Seq<char>,
    position_idx: u128,
    collateral: AssetView,
    collateral_quote: Result<CollateralInfo, OracleError>,
    asset_price: Decimal,
    collateral_price: Decimal,
    min_collateral_ratio: Decimal,
    multiplier: Decimal,
)
    requires
        deposit_outcome(ledger, sender, position_idx, collateral, collateral_quote) is Ok,
        covers(
            ledger.positions[position_idx].collateral.amount,
            ledger.positions[position_idx].asset.amount,
            asset_price,
            collateral_price,
            min_collateral_ratio,
            multiplier,
        ),
    ensures
        ({
            let outcome = deposit_outcome(
                ledger,
                sender,
                position_idx,
                collateral,
                collateral_quote,
            )->Ok_0;
            let after = outcome.ledger.positions[position_idx];
            covers(
                after.collateral.amount,
                after.asset.amount,
                asset_price,
                collateral_price,
                min_collateral_ratio,
                multiplier,
            )
        }),
{
    let before = ledger.positions[position_idx];
    lemma_more_collateral_weighs_more(
        before.collateral.amount,
        (before.collateral.amount + collateral.amount) as u128,
        collateral_price,
    );
}

/// Opening a position issues the counter's value as its identifier and moves the
/// counter on by exactly one. In a consistent ledger no position had that identifier
/// before. Every other position stays as it was.
pub proof fn lemma_open_position_issues_the_counter(
    ledger: LedgerView,
    sender: Seq<char>,
    collateral: AssetView,
    asset_info: AssetInfoView,
    collateral_ratio: Decimal,
    collateral_quote: Result<CollateralInfo, OracleError>,
    asset_quote: Result<Decimal, OracleError>,
)
    requires
        open_position_outcome(
            ledger,
            sender,
            collateral,
            asset_info,
            collateral_ratio,
            collateral_quote,
            asset_quote,
        ) is Ok,
    ensures
        ({
            let outcome = open_position_outcome(
                ledger,
                sender,
                collateral,
                asset_info,
                collateral_ratio,
                collateral_quote,
                asset_quote,
            )->Ok_0;
            &&& ledger.position_idx matches Some(idx)
            &&& outcome.ledger.position_idx == Some((idx + 1) as u128)
            &&& idx + 1 <= u128::MAX
            &&& outcome.ledger.positions.contains_key(idx)
            &&& outcome.ledger.positions[idx].idx == idx
            &&& outcome.ledger.positions[idx].owner == sender
            &&& outcome.response.attributes[1] == AttributeView::PositionIdx(idx)
            &&& ledger.consistent() ==> !ledger.positions.contains_key(idx)
            &&& forall|other: u128|
                other != idx ==> {
                    &&& outcome.ledger.positions.contains_key(other)
                        == ledger.positions.contains_key(other)
                    &&& outcome.ledger.positions[other] == ledger.positions[other]
                }
        }),
{
}

/// Two positions opened one after the other get identifiers that differ by exactly
/// one.
pub proof fn lemma_successive_opens_issue_successive_idx(
    ledger: LedgerView,
    first_sender: Seq<char>,
    first_collateral: AssetView,
    first_asset_info: AssetInfoView,
    first_ratio: Decimal,
    first_collateral_quote: Result<CollateralInfo, OracleError>,
    first_asset_quote: Result<Decimal, OracleError>,
    second_sender: Seq<char>,
    second_collateral: AssetView,
    second_asset_info: AssetInfoView,
    second_ratio: Decimal,
    second_collateral_quote: Result<CollateralInfo, OracleError>,
    second_asset_quote: Result<Decimal, OracleError>,
)
    requires
        open_position_outcome(
            ledger,
            first_sender,
            first_collateral,
            first_asset_info,
            first_ratio,
            first_collateral_quote,
            first_asset_quote,
        ) is Ok,
        open_position_outcome(
            open_position_outcome(
                ledger,
                first_sender,
                first_collateral,
                first_asset_info,
                first_ratio,
                first_collateral_quote,
                first_asset_quote,
            )->Ok_0.ledger,
            second_sender,
            second_collateral,
            second_asset_info,
            second_ratio,
            second_collateral_quote,
            second_asset_quote,
        ) is Ok,
    ensures
        ({
            let first = open_position_outcome(
                ledger,
                first_sender,
                first_collateral,
                first_asset_info,
                first_ratio,
                first_collateral_quote,
                first_asset_quote,
            )->Ok_0;
            let second = open_position_outcome(
                first.ledger,
                second_sender,
                second_collateral,
                second_asset_info,
                second_ratio,
                second_collateral_quote,
                second_asset_quote,
            )->Ok_0;
            let first_idx = ledger.position_idx->Some_0;
            let second_idx = first.ledger.position_idx->Some_0;
            &&& second_idx == first_idx + 1
            &&& second.ledger.positions.contains_key(first_idx)
            &&& second.ledger.positions.contains_key(second_idx)
            &&& second.ledger.positions[first_idx].idx == first_idx
            &&& second.ledger.positions[second_idx].idx == second_idx
        }),
{
}

/// Depositing, withdrawing and minting leave the counter where it was and store no
/// position under a new identifier. With [`lemma_open_position_issues_the_counter`],
/// and as a failed operation changes nothing, the counter never goes down and no
/// identifier is issued a second time.
pub proof fn lemma_counter_moves_on_open_only(
    ledger: LedgerView,
    sender: Seq<char>,
    position_idx: u128,
    deposited: AssetView,
    withdrawn: Option<AssetView>,
    minted: AssetView,
    collateral_quote: Result<CollateralInfo, OracleError>,
    asset_quote: Result<Decimal, OracleError>,
)
    ensures
        deposit_outcome(ledger, sender, position_idx, deposited, collateral_quote) matches Ok(o)
            ==> o.ledger.position_idx == ledger.position_idx && o.ledger.positions.dom()
            == ledger.positions.dom(),
        withdraw_outcome(
            ledger,
            sender,
            position_idx,
            withdrawn,
            collateral_quote,
            asset_quote,
        ) matches Ok(o) ==> o.ledger.position_idx == ledger.position_idx
            && o.ledger.positions.dom() == ledger.positions.dom(),
        mint_outcome(
            ledger,
            sender,
            position_idx,
            minted,
            collateral_quote,
            asset_quote,
        ) matches Ok(o) ==> o.ledger.position_idx == ledger.position_idx
            && o.ledger.positions.dom() == ledger.positions.dom(),
{
    let depositing = deposit_outcome(ledger, sender, position_idx, deposited, collateral_quote);
    if depositing is Ok {
        assert(depositing->Ok_0.ledger.positions.dom() =~= ledger.positions.dom());
    }
    let withdrawing = withdraw_outcome(
        ledger,
        sender,
        position_idx,
        withdrawn,
        collateral_quote,
        asset_quote,
    );
    if withdrawing is Ok {
        assert(withdrawing->Ok_0.ledger.positions.dom() =~= ledger.positions.dom());
    }
    let minting = mint_outcome(ledger, sender, position_idx, minted, collateral_quote, asset_quote);
    if minting is Ok {
        assert(minting->Ok_0.ledger.positions.dom() =~= ledger.positions.dom());
    }
}

/// Opening a position keeps a consistent ledger consistent.
pub proof fn lemma_open_position_keeps_consistency(
    ledger: LedgerView,
    sender: Seq<char>,
    collateral: AssetView,
    asset_info: AssetInfoView,
    collateral_ratio: Decimal,
    collateral_quote: Result<CollateralInfo, OracleError>,
    asset_quote: Result<Decimal, OracleError>,
)
    requires
        ledger.consistent(),
        open_position_outcome(
            ledger,
            sender,
            collateral,
            asset_info,
            collateral_ratio,
            collateral_quote,
            asset_quote,
        ) is Ok,
    ensures
        open_position_outcome(
            ledger,
            sender,
            collateral,
            asset_info,
            collateral_ratio,
            collateral_quote,
            asset_quote,
        )->Ok_0.ledger.consistent(),
{
}

/// A deposit keeps a consistent ledger consistent.
pub proof fn lemma_deposit_keeps_consistency(
    ledger: LedgerView,
    sender: Seq<char>,
    position_idx: u128,
    collateral: AssetView,
    collateral_quote: Result<CollateralInfo, OracleError>,
)
    requires
        ledger.consistent(),
        deposit_outcome(ledger, sender, position_idx, collateral, collateral_quote) is Ok,
    ensures
        deposit_outcome(
            ledger,
            sender,
            position_idx,
            collateral,
            collateral_quote,
        )->Ok_0.ledger.consistent(),
{
}

/// A withdrawal keeps a consistent ledger consistent.
pub proof fn lemma_withdraw_keeps_consistency(
    ledger: LedgerView,
    sender: Seq<char>,
    position_idx: u128,
    collateral: Option<AssetView>,
    collateral_quote: Result<CollateralInfo, OracleError>,
    asset_quote: Result<Decimal, OracleError>,
)
    requires
        ledger.consistent(),
        withdraw_outcome(
            ledger,
            sender,
            position_idx,
            collateral,
            collateral_quote,
            asset_quote,
        ) is Ok,
    ensures
        withdraw_outcome(
            ledger,
            sender,
            position_idx,
            collateral,
            collateral_quote,
            asset_quote,
        )->Ok_0.ledger.consistent(),
{
}

/// A mint keeps a consistent ledger consistent.
pub proof fn lemma_mint_keeps_consistency(
    ledger: LedgerView,
    sender: Seq<char>,
    position_idx: u128,
    asset: AssetView,
    collateral_quote: Result<CollateralInfo, OracleError>,
    asset_quote: Result<Decimal, OracleError>,
)
    requires
        ledger.consistent(),
        mint_outcome(ledger, sender, position_idx, asset, collateral_quote, asset_quote) is Ok,
    ensures
        mint_outcome(
            ledger,
            sender,
            position_idx,
            asset,
            collateral_quote,
            asset_quote,
        )->Ok_0.ledger.consistent(),
{
}

/// A withdrawal is decided by exactly one thing once the request is in order: whether
/// what is left covers the debt. It succeeds where it does, and fails with
/// `InsufficientCollateral` where it does not and the collateral has a price.
pub proof fn lemma_withdraw_is_decided_by_cover(
    ledger: LedgerView,
    sender: Seq<char>,
    position_idx: u128,
    amount: u128,
    info: CollateralInfo,
    asset_price: Decimal,
)
    requires
        owned_position(ledger, sender, position_idx) is Ok,
        registered(ledger, ledger.positions[position_idx].asset.info) is Ok,
        0 < amount <= ledger.positions[position_idx].collateral.amount,
    ensures
        ({
            let position = ledger.positions[position_idx];
            let asset_config = registered(ledger, position.asset.info)->Ok_0;
            let outcome = withdraw_outcome(
                ledger,
                sender,
                position_idx,
                Some(AssetView { info: position.collateral.info, amount }),
                Ok(info),
                Ok(asset_price),
            );
            let covered = covers(
                (position.collateral.amount - amount) as u128,
                position.asset.amount,
                asset_price,
                info.price,
                asset_config.min_collateral_ratio,
                withdraw_multiplier(asset_config, info),
            );
            &&& outcome is Ok <==> covered
            &&& !covered && info.price.atomics != 0 ==> outcome == Err::<Outcome, ContractError>(
                ContractError::InsufficientCollateral,
            )
        }),
{
}

/// A mint is decided by exactly one thing once the request is in order and the new
/// debt fits in 128 bits: whether the collateral covers the new debt. It succeeds where
/// it does, and fails with `InsufficientCollateral` where it does not and the
/// collateral has a price.
pub proof fn lemma_mint_is_decided_by_cover(
    ledger: LedgerView,
    sender: Seq<char>,
    position_idx: u128,
    amount: u128,
    info: CollateralInfo,
    asset_price: Decimal,
)
    requires
        owned_position(ledger, sender, position_idx) is Ok,
        registered(ledger, ledger.positions[position_idx].asset.info) is Ok,
        !is_migrated(ledger, ledger.positions[position_idx].asset.info),
        !info.is_revoked,
        amount > 0,
        ledger.positions[position_idx].asset.amount + amount <= u128::MAX,
    ensures
        ({
            let position = ledger.positions[position_idx];
            let asset_config = registered(ledger, position.asset.info)->Ok_0;
            let outcome = mint_outcome(
                ledger,
                sender,
                position_idx,
                AssetView { info: position.asset.info, amount },
                Ok(info),
                Ok(asset_price),
            );
            let covered = covers(
                position.collateral.amount,
                (position.asset.amount + amount) as u128,
                asset_price,
                info.price,
                asset_config.min_collateral_ratio,
                info.multiplier,
            );
            &&& outcome is Ok <==> covered
            &&& !covered && info.price.atomics != 0 ==> outcome == Err::<Outcome, ContractError>(
                ContractError::InsufficientCollateral,
            )
        }),
{
}

/// Where the debt, times the price of the asset in collateral, times the minimum ratio,
/// times the multiplier, comes to a whole number of units, that number is the
/// collateral required: it covers the debt, and one unit less does not.
pub proof fn lemma_whole_requirement_is_required(
    required: u128,
    asset_amount: u128,
    asset_price: Decimal,
    collateral_price: Decimal,
    min_collateral_ratio: Decimal,
    multiplier: Decimal,
)
    requires
        collateral_price.atomics != 0,
        collateral_weight(required, collateral_price) == debt_weight(
            asset_amount,
            asset_price,
            min_collateral_ratio,
            multiplier,
        ),
    ensures
        is_required_collateral(
            required,
            asset_amount,
            asset_price,
            collateral_price,
            min_collateral_ratio,
            multiplier,
        ),
{
    if required > 0 {
        lemma_more_collateral_weighs_more((required - 1) as u128, required, collateral_price);
    }
}

/// More collateral weighs more, where the collateral has a price.
proof fn lemma_more_collateral_weighs_more(less: u128, more: u128, collateral_price: Decimal)
    requires
        less <= more,
    ensures
        collateral_weight(less, collateral_price) <= collateral_weight(more, collateral_price),
        less < more && collateral_price.atomics != 0 ==> collateral_weight(less, collateral_price)
            < collateral_weight(more, collateral_price),
{
    let unit = DECIMAL_FRACTIONAL as int;
    let scale = collateral_price.atomics as int * unit * unit;
    assert(scale >= 0 && (collateral_price.atomics != 0 ==> scale > 0)) by (nonlinear_arith)
        requires
            scale == collateral_price.atomics as int * unit * unit,
            unit > 0,
            collateral_price.atomics >= 0,
    ;
    assert(less * collateral_price.atomics * unit * unit == less * scale) by (nonlinear_arith)
        requires
            scale == collateral_price.atomics as int * unit * unit,
    ;
    assert(more * collateral_price.atomics * unit * unit == more * scale) by (nonlinear_arith)
        requires
            scale == collateral_price.atomics as int * unit * unit,
    ;
    assert(less * scale <= more * scale && (less < more && scale > 0 ==> less * scale < more
        * scale)) by (nonlinear_arith)
        requires
            less <= more,
            scale >= 0,
    ;
}

/// The boundary of a withdrawal. Let `required` be the collateral that the position's
/// debt requires at the prices quoted, the least amount that covers it, and let the
/// position hold at least that much. Taking out all but `required` succeeds and leaves
/// exactly `required`; taking out one unit more fails with `InsufficientCollateral`.
///
/// The first holds where there is something to take out, as a request for nothing is
/// refused; the second where `required` is not zero, as otherwise one unit more is
/// more than the position holds.
pub proof fn lemma_withdraw_boundary(
    ledger: LedgerView,
    sender: Seq<char>,
    position_idx: u128,
    info: CollateralInfo,
    asset_price: Decimal,
    required: u128,
)
    requires
        owned_position(ledger, sender, position_idx) is Ok,
        registered(ledger, ledger.positions[position_idx].asset.info) is Ok,
        is_required_collateral(
            required,
            ledger.positions[position_idx].asset.amount,
            asset_price,
            info.price,
            registered(
                ledger,
                ledger.positions[position_idx].asset.info,
            )->Ok_0.min_collateral_ratio,
            withdraw_multiplier(
                registered(ledger, ledger.positions[position_idx].asset.info)->Ok_0,
                info,
            ),
        ),
        required <= ledger.positions[position_idx].collateral.amount,
    ensures
        ({
            let position = ledger.positions[position_idx];
            let most = (position.collateral.amount - required) as u128;
            let at_boundary = withdraw_outcome(
                ledger,
                sender,
                position_idx,
                Some(AssetView { info: position.collateral.info, amount: most }),
                Ok(info),
                Ok(asset_price),
            );
            let beyond = withdraw_outcome(
                ledger,
                sender,
                position_idx,
                Some(AssetView { info: position.collateral.info, amount: (most + 1) as u128 }),
                Ok(info),
                Ok(asset_price),
            );
            &&& most > 0 ==> at_boundary is Ok
                && at_boundary->Ok_0.ledger.positions[position_idx].collateral.amount == required
            &&& required > 0 ==> beyond == Err::<Outcome, ContractError>(
                ContractError::InsufficientCollateral,
            )
        }),
{
}

/// A migrated synthetic asset accepts no new exposure. Opening a position in it,
/// depositing into a position in it and minting against one all fail, and they fail
/// with `AssetMigrated` where every earlier check passes.
pub proof fn lemma_migrated_asset_refuses_exposure(
    ledger: LedgerView,
    sender: Seq<char>,
    position_idx: u128,
    collateral: AssetView,
    asset: AssetView,
    asset_info: AssetInfoView,
    collateral_ratio: Decimal,
    collateral_quote: Result<CollateralInfo, OracleError>,
    asset_quote: Result<Decimal, OracleError>,
)
    ensures
        is_migrated(ledger, asset_info) ==> {
            let opening = open_position_outcome(
                ledger,
                sender,
                collateral,
                asset_info,
                collateral_ratio,
                collateral_quote,
                asset_quote,
            );
            &&& opening is Err
            &&& (ledger.config.is_some() && collateral.amount != 0 && collateral_quote is Ok
                && !collateral_quote->Ok_0.is_revoked) ==> opening == Err::<
                Outcome,
                ContractError,
            >(ContractError::Registry(RegistryError::AssetMigrated))
        },
        owned_position(ledger, sender, position_idx) is Ok && is_migrated(
            ledger,
            ledger.positions[position_idx].asset.info,
        ) ==> {
            let position = ledger.positions[position_idx];
            let depositing = deposit_outcome(
                ledger,
                sender,
                position_idx,
                collateral,
                collateral_quote,
            );
            let minting = mint_outcome(
                ledger,
                sender,
                position_idx,
                asset,
                collateral_quote,
                asset_quote,
            );
            &&& depositing is Err
            &&& (collateral_check(position, collateral) is Ok && collateral_quote is Ok
                && !collateral_quote->Ok_0.is_revoked) ==> depositing == Err::<
                Outcome,
                ContractError,
            >(ContractError::Registry(RegistryError::AssetMigrated))
            &&& minting is Err
            &&& asset_check(position, asset) is Ok ==> minting == Err::<
                Outcome,
                ContractError,
            >(ContractError::Registry(RegistryError::AssetMigrated))
        },
{
}

/// A position in a migrated synthetic asset can still be unwound. Its withdrawals are
/// judged with a multiplier of one: the oracle's multiplier and its word on revocation
/// make no difference to the outcome, and a withdrawal succeeds where what is left
/// covers the debt at a multiplier of one.
pub proof fn lemma_withdraw_from_migrated_asset(
    ledger: LedgerView,
    sender: Seq<char>,
    position_idx: u128,
    collateral: Option<AssetView>,
    info: CollateralInfo,
    other_multiplier: Decimal,
    other_is_revoked: bool,
    asset_price: Decimal,
)
    requires
        owned_position(ledger, sender, position_idx) is Ok,
        is_migrated(ledger, ledger.positions[position_idx].asset.info),
    ensures
        ({
            let position = ledger.positions[position_idx];
            let config = registered(ledger, position.asset.info)->Ok_0;
            let outcome = withdraw_outcome(
                ledger,
                sender,
                position_idx,
                collateral,
                Ok(info),
                Ok(asset_price),
            );
            let other_info = CollateralInfo {
                price: info.price,
                multiplier: other_multiplier,
                is_revoked: other_is_revoked,
            };
            &&& outcome == withdraw_outcome(
                ledger,
                sender,
                position_idx,
                collateral,
                Ok(other_info),
                Ok(asset_price),
            )
            &&& withdrawn_collateral(position, collateral) matches Ok(withdrawn) ==> (outcome is Ok
                <==> covers(
                (position.collateral.amount - withdrawn.amount) as u128,
                position.asset.amount,
                asset_price,
                info.price,
                config.min_collateral_ratio,
                Decimal { atomics: DECIMAL_FRACTIONAL },
            ))
        }),
{
}

/// One request to the ledger, with the oracles' answers at the time it is made.
pub struct Call {
    pub sender: Seq<char>,
    pub msg: ExecuteMsg,
    pub collateral_quote: Result<CollateralInfo, OracleError>,
    pub asset_quote: Result<Decimal, OracleError>,
}

/// The ledger after one call: as the call's outcome says where it succeeds, and as it
/// was where it fails.
pub open spec fn ledger_after(ledger: LedgerView, call: Call) -> LedgerView {
    match execute_outcome(ledger, call.sender, call.msg, call.collateral_quote, call.asset_quote) {
        Ok(outcome) => outcome.ledger,
        Err(_) => ledger,
    }
}

/// The ledger after a sequence of calls, made one after the other.
pub open spec fn ledger_after_all(ledger: LedgerView, calls: Seq<Call>) -> LedgerView
    decreases calls.len(),
{
    if calls.len() == 0 {
        ledger
    } else {
        ledger_after(ledger_after_all(ledger, calls.drop_last()), calls.last())
    }
}

/// Whether the call opens a position in this ledger.
pub open spec fn opens_position(ledger: LedgerView, call: Call) -> bool {
    call.msg is OpenPosition && execute_outcome(
        ledger,
        call.sender,
        call.msg,
        call.collateral_quote,
        call.asset_quote,
    ) is Ok
}

/// How many positions a sequence of calls opens.
pub open spec fn positions_opened(ledger: LedgerView, calls: Seq<Call>) -> nat
    decreases calls.len(),
{
    if calls.len() == 0 {
        0
    } else {
        let earlier = positions_opened(ledger, calls.drop_last());
        if opens_position(ledger_after_all(ledger, calls.drop_last()), calls.last()) {
            earlier + 1
        } else {
            earlier
        }
    }
}

/// Whatever is asked of a consistent ledger, in whatever order and whether it succeeds
/// or fails, the ledger stays consistent.
pub proof fn lemma_calls_keep_consistency(ledger: LedgerView, calls: Seq<Call>)
    requires
        ledger.consistent(),
    ensures
        ledger_after_all(ledger, calls).consistent(),
    decreases calls.len(),
{
    if calls.len() > 0 {
        lemma_calls_keep_consistency(ledger, calls.drop_last());
        let before = ledger_after_all(ledger, calls.drop_last());
        let call = calls.last();
        match call.msg {
            ExecuteMsg::OpenPosition { collateral, asset_info, collateral_ratio } => {
                if opens_position(before, call) {
                    lemma_open_position_keeps_consistency(
                        before,
                        call.sender,
                        collateral@,
                        asset_info@,
                        collateral_ratio,
                        call.collateral_quote,
                        call.asset_quote,
                    );
                }
            },
            ExecuteMsg::Deposit { position_idx, collateral } => {
                if deposit_outcome(
                    before,
                    call.sender,
                    position_idx,
                    collateral@,
                    call.collateral_quote,
                ) is Ok {
                    lemma_deposit_keeps_consistency(
                        before,
                        call.sender,
                        position_idx,
                        collateral@,
                        call.collateral_quote,
                    );
                }
            },
            ExecuteMsg::Withdraw { position_idx, collateral } => {
                if withdraw_outcome(
                    before,
                    call.sender,
                    position_idx,
                    requested(collateral),
                    call.collateral_quote,
                    call.asset_quote,
                ) is Ok {
                    lemma_withdraw_keeps_consistency(
                        before,
                        call.sender,
                        position_idx,
                        requested(collateral),
                        call.collateral_quote,
                        call.asset_quote,
                    );
                }
            },
            ExecuteMsg::Mint { position_idx, asset } => {
                if mint_outcome(
                    before,
                    call.sender,
                    position_idx,
                    asset@,
                    call.collateral_quote,
                    call.asset_quote,
                ) is Ok {
                    lemma_mint_keeps_consistency(
                        before,
                        call.sender,
                        position_idx,
                        asset@,
                        call.collateral_quote,
                        call.asset_quote,
                    );
                }
            },
        }
    }
}

/// The counter counts the positions opened. After any sequence of calls it stands at
/// its first value plus the number of positions that the calls opened: it moves on by
/// one with each position opened, and a failed call, a deposit, a withdrawal and a
/// mint leave it where it was. So identifiers are issued in increasing order, one
/// apart, and none is issued twice.
pub proof fn lemma_counter_counts_positions_opened(ledger: LedgerView, calls: Seq<Call>)
    requires
        ledger.position_idx is Some,
    ensures
        ledger_after_all(ledger, calls).position_idx == Some(
            (ledger.position_idx->Some_0 + positions_opened(ledger, calls)) as u128,
        ),
        ledger.position_idx->Some_0 + positions_opened(ledger, calls) <= u128::MAX,
    decreases calls.len(),
{
    if calls.len() > 0 {
        lemma_counter_counts_positions_opened(ledger, calls.drop_last());
    }
}

} // verus!
