use melange_mint::asset::{Asset, AssetInfo};
use melange_mint::contract::instantiate;
use melange_mint::error::{
    ContractError, OracleError, RegistryError, ValidationError,
};
use melange_mint::math::{ArithmeticError, Decimal};
use melange_mint::msg::InstantiateMsg;
use melange_mint::positions::{deposit, mint, open_position, withdraw};
use melange_mint::querier::CollateralInfo;
use melange_mint::response::{Action, Attribute, Instruction, Response};
use melange_mint::math::product_exceeds;
use melange_mint::solvency::assert_min_collateral_ratio;
use melange_mint::state::{
    is_indexed_by_asset, is_indexed_by_user, read_position, read_position_idx,
    store_asset_config, store_position, store_position_idx, AssetConfig, Ledger, Position,
};

const ONE: u128 = 1_000_000_000_000_000_000;

fn collateral_info() -> AssetInfo {
    AssetInfo::NativeToken { denom: "C".to_string() }
}

fn synthetic_info() -> AssetInfo {
    AssetInfo::Token { contract_addr: "S".to_string() }
}

fn collateral(amount: u128) -> Asset {
    Asset { info: collateral_info(), amount }
}

fn synthetic(amount: u128) -> Asset {
    Asset { info: synthetic_info(), amount }
}

fn alice() -> String {
    "alice".to_string()
}

fn bob() -> String {
    "bob".to_string()
}

// Collateral at price 10, multiplier 1.0, not revoked.
fn collateral_quote() -> Result<CollateralInfo, OracleError> {
    Ok(CollateralInfo {
        price: Decimal::percent(1000),
        multiplier: Decimal::one(),
        is_revoked: false,
    })
}

fn collateral_quote_with(price: Decimal, multiplier: Decimal, is_revoked: bool) -> Result<
    CollateralInfo,
    OracleError,
> {
    Ok(CollateralInfo { price, multiplier, is_revoked })
}

// Synthetic asset at price 5.
fn asset_quote() -> Result<Decimal, OracleError> {
    Ok(Decimal::percent(500))
}

fn register(ledger: &mut Ledger, token: &str, min_ratio: Decimal, end_price: Option<Decimal>) {
    store_asset_config(
        ledger,
        token,
        &AssetConfig { token: token.to_string(), min_collateral_ratio: min_ratio, end_price },
    );
}

// A configured ledger in which S is registered with a minimum ratio of 1.5.
fn ledger() -> Ledger {
    let mut ledger = Ledger::new();
    let set_up = instantiate(
        &mut ledger,
        InstantiateMsg {
            owner: "owner".to_string(),
            oracle: "oracle".to_string(),
            collector: "collector".to_string(),
            collateral_oracle: "collateral_oracle".to_string(),
            staking: "staking".to_string(),
            melange_factory: "factory".to_string(),
            lock: "lock".to_string(),
            base_denom: "C".to_string(),
            token_code_id: 1,
            protocol_fee_rate: Decimal::percent(1),
        },
    );
    assert!(set_up.is_ok());
    register(&mut ledger, "S", Decimal::percent(150), None);
    ledger
}

// The ledger after alice has locked 1000 C and minted 1000 S under identifier 1.
fn ledger_with_position() -> Ledger {
    let mut ledger = ledger();
    let opened = open_position(
        &mut ledger,
        alice(),
        collateral(1000),
        synthetic_info(),
        Decimal::percent(200),
        collateral_quote(),
        asset_quote(),
    );
    assert!(opened.is_ok());
    ledger
}

fn migrate(ledger: &mut Ledger) {
    register(ledger, "S", Decimal::percent(150), Some(Decimal::percent(500)));
}

fn position(collateral_amount: u128, asset_amount: u128) -> Position {
    Position {
        idx: 1,
        owner: alice(),
        collateral: collateral(collateral_amount),
        asset: synthetic(asset_amount),
    }
}

#[test]
fn open_mints_collateral_value_over_ratio() {
    let mut ledger = ledger();
    let response = open_position(
        &mut ledger,
        alice(),
        collateral(1000),
        synthetic_info(),
        Decimal::percent(200),
        collateral_quote(),
        asset_quote(),
    );
    assert_eq!(
        response,
        Ok(Response {
            messages: vec![Instruction::Mint {
                token: "S".to_string(),
                recipient: alice(),
                amount: 1000,
            }],
            attributes: vec![
                Attribute::Action(Action::OpenPosition),
                Attribute::PositionIdx(1),
                Attribute::MintAmount(synthetic(1000)),
                Attribute::CollateralAmount(collateral(1000)),
            ],
        })
    );
    assert_eq!(read_position(&ledger, 1), Ok(position(1000, 1000)));
    assert_eq!(read_position_idx(&ledger), Ok(2));
    assert!(is_indexed_by_user(&ledger, &alice(), 1));
    assert!(is_indexed_by_asset(&ledger, &synthetic_info(), 1));
}

#[test]
fn open_rounds_the_mint_amount_down() {
    let mut ledger = ledger();
    // 1000 * (10 / 3) / 1.5: 10/3 = 3.333333333333333333, 1000 * that = 3333,
    // 1/1.5 = 0.666666666666666666, 3333 * that = 2221.99... = 2221
    let response = open_position(
        &mut ledger,
        alice(),
        collateral(1000),
        synthetic_info(),
        Decimal::percent(150),
        collateral_quote(),
        Ok(Decimal::percent(300)),
    );
    assert!(response.is_ok());
    assert_eq!(read_position(&ledger, 1), Ok(position(1000, 2221)));
}

#[test]
fn open_mints_to_the_registered_token() {
    let mut ledger = ledger();
    store_asset_config(
        &mut ledger,
        "S",
        &AssetConfig {
            token: "S_token".to_string(),
            min_collateral_ratio: Decimal::percent(150),
            end_price: None,
        },
    );
    let response = open_position(
        &mut ledger,
        bob(),
        collateral(10),
        synthetic_info(),
        Decimal::percent(200),
        collateral_quote(),
        asset_quote(),
    )
    .unwrap();
    assert_eq!(
        response.messages,
        vec![Instruction::Mint { token: "S_token".to_string(), recipient: bob(), amount: 10 }]
    );
}

#[test]
fn open_needs_a_configured_ledger() {
    let mut ledger = Ledger::new();
    register(&mut ledger, "S", Decimal::percent(150), None);
    store_position_idx(&mut ledger, 1);
    let response = open_position(
        &mut ledger,
        alice(),
        collateral(1000),
        synthetic_info(),
        Decimal::percent(200),
        collateral_quote(),
        asset_quote(),
    );
    assert_eq!(response, Err(ContractError::NotInitialized));
    assert_eq!(read_position_idx(&ledger), Ok(1));
}

#[test]
fn open_refuses_zero_collateral() {
    let mut ledger = ledger();
    let response = open_position(
        &mut ledger,
        alice(),
        collateral(0),
        synthetic_info(),
        Decimal::percent(200),
        Err(OracleError::PriceUnavailable),
        asset_quote(),
    );
    assert_eq!(response, Err(ContractError::Validation(ValidationError::WrongCollateral)));
}

#[test]
fn open_hands_on_the_collateral_oracle_failure() {
    let mut ledger = ledger();
    let response = open_position(
        &mut ledger,
        alice(),
        collateral(1000),
        synthetic_info(),
        Decimal::percent(200),
        Err(OracleError::StalePrice),
        asset_quote(),
    );
    assert_eq!(response, Err(ContractError::Oracle(OracleError::StalePrice)));
}

#[test]
fn open_refuses_revoked_collateral() {
    let mut ledger = ledger();
    let response = open_position(
        &mut ledger,
        alice(),
        collateral(1000),
        synthetic_info(),
        Decimal::percent(200),
        collateral_quote_with(Decimal::percent(1000), Decimal::one(), true),
        asset_quote(),
    );
    assert_eq!(response, Err(ContractError::Registry(RegistryError::AssetRevoked)));
}

#[test]
fn open_refuses_an_unregistered_asset() {
    let mut ledger = ledger();
    let response = open_position(
        &mut ledger,
        alice(),
        collateral(1000),
        AssetInfo::Token { contract_addr: "T".to_string() },
        Decimal::percent(200),
        collateral_quote(),
        asset_quote(),
    );
    assert_eq!(response, Err(ContractError::Registry(RegistryError::UnknownAsset)));
}

#[test]
fn open_refuses_a_native_coin_as_synthetic_asset() {
    let mut ledger = ledger();
    let response = open_position(
        &mut ledger,
        alice(),
        collateral(1000),
        AssetInfo::NativeToken { denom: "S".to_string() },
        Decimal::percent(200),
        collateral_quote(),
        asset_quote(),
    );
    assert_eq!(response, Err(ContractError::Registry(RegistryError::UnknownAsset)));
}

#[test]
fn open_refuses_a_migrated_asset() {
    let mut ledger = ledger();
    migrate(&mut ledger);
    let response = open_position(
        &mut ledger,
        alice(),
        collateral(1000),
        synthetic_info(),
        Decimal::percent(200),
        collateral_quote(),
        asset_quote(),
    );
    assert_eq!(response, Err(ContractError::Registry(RegistryError::AssetMigrated)));
    assert_eq!(read_position(&ledger, 1), Err(ContractError::PositionNotFound));
    assert_eq!(read_position_idx(&ledger), Ok(1));
}

#[test]
fn open_refuses_a_ratio_below_the_minimum() {
    let mut ledger = ledger();
    let response = open_position(
        &mut ledger,
        alice(),
        collateral(1000),
        synthetic_info(),
        Decimal::percent(149),
        collateral_quote(),
        asset_quote(),
    );
    assert_eq!(response, Err(ContractError::Validation(ValidationError::LowCollateralRatio)));
}

#[test]
fn open_accepts_the_minimum_ratio_itself() {
    let mut ledger = ledger();
    let response = open_position(
        &mut ledger,
        alice(),
        collateral(1500),
        synthetic_info(),
        Decimal::percent(150),
        collateral_quote(),
        asset_quote(),
    );
    assert!(response.is_ok());
    // 1500 * 2 = 3000, 1/1.5 = 0.666666666666666666, 3000 * that = 1999.99... = 1999
    assert_eq!(read_position(&ledger, 1), Ok(position(1500, 1999)));
}

#[test]
fn open_scales_the_minimum_by_the_multiplier() {
    let mut ledger = ledger();
    // minimum 1.5 * multiplier 2.0 = 3.0
    let refused = open_position(
        &mut ledger,
        alice(),
        collateral(1000),
        synthetic_info(),
        Decimal::percent(299),
        collateral_quote_with(Decimal::percent(1000), Decimal::percent(200), false),
        asset_quote(),
    );
    assert_eq!(refused, Err(ContractError::Validation(ValidationError::LowCollateralRatio)));
    let accepted = open_position(
        &mut ledger,
        alice(),
        collateral(1000),
        synthetic_info(),
        Decimal::percent(300),
        collateral_quote_with(Decimal::percent(1000), Decimal::percent(200), false),
        asset_quote(),
    );
    assert!(accepted.is_ok());
}

#[test]
fn open_compares_with_a_minimum_of_any_size() {
    // The minimum times the largest multiplier there is fits in no decimal; the ratio
    // is compared with it all the same.
    let mut ledger = ledger();
    let response = open_position(
        &mut ledger,
        alice(),
        collateral(1000),
        synthetic_info(),
        Decimal::new(u128::MAX),
        collateral_quote_with(Decimal::percent(1000), Decimal::new(u128::MAX), false),
        asset_quote(),
    );
    assert_eq!(response, Err(ContractError::Validation(ValidationError::LowCollateralRatio)));
}

#[test]
fn open_hands_on_the_price_oracle_failure() {
    let mut ledger = ledger();
    let response = open_position(
        &mut ledger,
        alice(),
        collateral(1000),
        synthetic_info(),
        Decimal::percent(200),
        collateral_quote(),
        Err(OracleError::PriceUnavailable),
    );
    assert_eq!(response, Err(ContractError::Oracle(OracleError::PriceUnavailable)));
}

#[test]
fn open_reports_an_asset_price_of_zero() {
    let mut ledger = ledger();
    let response = open_position(
        &mut ledger,
        alice(),
        collateral(1000),
        synthetic_info(),
        Decimal::percent(200),
        collateral_quote(),
        Ok(Decimal::zero()),
    );
    assert_eq!(response, Err(ContractError::Arithmetic(ArithmeticError::DivideByZero)));
}

#[test]
fn open_reports_a_ratio_of_zero() {
    let mut ledger = ledger();
    register(&mut ledger, "S", Decimal::zero(), None);
    let response = open_position(
        &mut ledger,
        alice(),
        collateral(1000),
        synthetic_info(),
        Decimal::zero(),
        collateral_quote(),
        asset_quote(),
    );
    assert_eq!(response, Err(ContractError::Arithmetic(ArithmeticError::DivideByZero)));
}

#[test]
fn open_reports_a_mint_amount_that_overflows() {
    let mut ledger = ledger();
    let response = open_position(
        &mut ledger,
        alice(),
        collateral(u128::MAX),
        synthetic_info(),
        Decimal::percent(200),
        collateral_quote(),
        asset_quote(),
    );
    assert_eq!(response, Err(ContractError::Arithmetic(ArithmeticError::Overflow)));
}

#[test]
fn open_refuses_collateral_too_small_to_mint_a_unit() {
    let mut ledger = ledger();
    // 1 * (5 / 10) = 0.5, which is no whole unit
    let response = open_position(
        &mut ledger,
        alice(),
        collateral(1),
        synthetic_info(),
        Decimal::percent(200),
        collateral_quote_with(Decimal::percent(500), Decimal::one(), false),
        Ok(Decimal::percent(1000)),
    );
    assert_eq!(response, Err(ContractError::Validation(ValidationError::MintAmountZero)));
    assert_eq!(read_position_idx(&ledger), Ok(1));
}

#[test]
fn open_needs_a_stored_counter() {
    let mut ledger = Ledger::new();
    melange_mint::state::store_config(
        &mut ledger,
        &melange_mint::state::Config {
            owner: "owner".to_string(),
            oracle: "oracle".to_string(),
            collector: "collector".to_string(),
            collateral_oracle: "collateral_oracle".to_string(),
            staking: "staking".to_string(),
            melange_factory: "factory".to_string(),
            lock: "lock".to_string(),
            base_denom: "C".to_string(),
            token_code_id: 1,
            protocol_fee_rate: Decimal::percent(1),
        },
    );
    register(&mut ledger, "S", Decimal::percent(150), None);
    let response = open_position(
        &mut ledger,
        alice(),
        collateral(1000),
        synthetic_info(),
        Decimal::percent(200),
        collateral_quote(),
        asset_quote(),
    );
    assert_eq!(response, Err(ContractError::NotInitialized));
}

#[test]
fn open_reports_a_counter_without_successor() {
    let mut ledger = ledger();
    store_position_idx(&mut ledger, u128::MAX);
    let response = open_position(
        &mut ledger,
        alice(),
        collateral(1000),
        synthetic_info(),
        Decimal::percent(200),
        collateral_quote(),
        asset_quote(),
    );
    assert_eq!(response, Err(ContractError::Arithmetic(ArithmeticError::Overflow)));
    assert_eq!(read_position_idx(&ledger), Ok(u128::MAX));
    assert_eq!(read_position(&ledger, u128::MAX), Err(ContractError::PositionNotFound));
}

#[test]
fn position_ids_increase_by_one() {
    let mut ledger = ledger();
    for expected in 1u128..=5 {
        assert_eq!(read_position_idx(&ledger), Ok(expected));
        let response = open_position(
            &mut ledger,
            alice(),
            collateral(100 * expected),
            synthetic_info(),
            Decimal::percent(200),
            collateral_quote(),
            asset_quote(),
        )
        .unwrap();
        assert_eq!(response.attributes[1], Attribute::PositionIdx(expected));
        assert_eq!(read_position(&ledger, expected).unwrap().idx, expected);
        assert_eq!(read_position(&ledger, expected).unwrap().collateral.amount, 100 * expected);
    }
    assert_eq!(read_position_idx(&ledger), Ok(6));
    // The earlier positions are still there, each under its own identifier.
    assert_eq!(read_position(&ledger, 1).unwrap().collateral.amount, 100);
}

#[test]
fn a_failed_open_uses_no_identifier() {
    let mut ledger = ledger_with_position();
    assert_eq!(read_position_idx(&ledger), Ok(2));
    let failed = open_position(
        &mut ledger,
        bob(),
        collateral(1000),
        synthetic_info(),
        Decimal::percent(100),
        collateral_quote(),
        asset_quote(),
    );
    assert!(failed.is_err());
    assert_eq!(read_position_idx(&ledger), Ok(2));
    assert_eq!(read_position(&ledger, 2), Err(ContractError::PositionNotFound));
    let opened = open_position(
        &mut ledger,
        bob(),
        collateral(1000),
        synthetic_info(),
        Decimal::percent(200),
        collateral_quote(),
        asset_quote(),
    )
    .unwrap();
    assert_eq!(opened.attributes[1], Attribute::PositionIdx(2));
    assert_eq!(read_position(&ledger, 2).unwrap().owner, bob());
    assert_eq!(read_position_idx(&ledger), Ok(3));
}

#[test]
fn other_operations_leave_the_counter_alone() {
    let mut ledger = ledger_with_position();
    assert!(deposit(&mut ledger, alice(), 1, collateral(500), collateral_quote()).is_ok());
    assert_eq!(read_position_idx(&ledger), Ok(2));
    assert!(
        withdraw(&mut ledger, alice(), 1, Some(collateral(100)), collateral_quote(), asset_quote())
            .is_ok()
    );
    assert_eq!(read_position_idx(&ledger), Ok(2));
    assert!(mint(&mut ledger, alice(), 1, synthetic(10), collateral_quote(), asset_quote()).is_ok());
    assert_eq!(read_position_idx(&ledger), Ok(2));
}

#[test]
fn opened_position_is_covered() {
    let ledger = ledger_with_position();
    let position = read_position(&ledger, 1).unwrap();
    assert_eq!(
        assert_min_collateral_ratio(
            position.collateral.amount,
            position.asset.amount,
            Decimal::percent(500),
            Decimal::percent(1000),
            Decimal::percent(150),
            Decimal::one(),
        ),
        Ok(())
    );
}

#[test]
fn open_takes_the_minimum_times_the_multiplier_exactly() {
    // minimum 1.000000000000000001 times multiplier 1.999999999999999999 is
    // 2.000000000000000000999999999999999999: a ratio of 2 is below it, and the next
    // ratio that there is, 2.000000000000000001, is not.
    let mut ledger = ledger();
    register(&mut ledger, "S", Decimal::new(ONE + 1), None);
    let quote = collateral_quote_with(Decimal::one(), Decimal::new(2 * ONE - 1), false);
    let response = open_position(
        &mut ledger,
        alice(),
        collateral(4 * ONE),
        synthetic_info(),
        Decimal::percent(200),
        quote,
        Ok(Decimal::one()),
    );
    assert_eq!(response, Err(ContractError::Validation(ValidationError::LowCollateralRatio)));
    let response = open_position(
        &mut ledger,
        alice(),
        collateral(4 * ONE),
        synthetic_info(),
        Decimal::new(2 * ONE + 1),
        quote,
        Ok(Decimal::one()),
    );
    assert!(response.is_ok());
    let position = read_position(&ledger, 1).unwrap();
    assert_eq!(
        assert_min_collateral_ratio(
            position.collateral.amount,
            position.asset.amount,
            Decimal::one(),
            Decimal::one(),
            Decimal::new(ONE + 1),
            Decimal::new(2 * ONE - 1),
        ),
        Ok(())
    );
}

#[test]
fn open_at_a_ratio_below_one_is_covered_whatever_the_size() {
    // At a ratio of 0.5 the debt is worth twice the collateral. The largest collateral
    // there is makes that value larger than 128 bits hold; the check is exact all the
    // same.
    let mut ledger = ledger();
    register(&mut ledger, "S", Decimal::percent(50), None);
    let quote = collateral_quote_with(Decimal::new(ONE / 1000), Decimal::one(), false);
    let response = open_position(
        &mut ledger,
        alice(),
        collateral(u128::MAX),
        synthetic_info(),
        Decimal::percent(50),
        quote,
        Ok(Decimal::one()),
    );
    assert!(response.is_ok());
    let position = read_position(&ledger, 1).unwrap();
    assert_eq!(position.asset.amount, 2 * (u128::MAX / 1000));
    let check = |available: u128| {
        assert_min_collateral_ratio(
            available,
            position.asset.amount,
            Decimal::one(),
            Decimal::new(ONE / 1000),
            Decimal::percent(50),
            Decimal::one(),
        )
    };
    assert_eq!(check(u128::MAX), Ok(()));
    // The debt requires 1000 * (u128::MAX / 1000) units exactly.
    assert_eq!(check(1000 * (u128::MAX / 1000)), Ok(()));
    assert_eq!(check(1000 * (u128::MAX / 1000) - 1), Err(ContractError::InsufficientCollateral));
}

#[test]
fn deposit_adds_to_the_collateral_only() {
    let mut ledger = ledger_with_position();
    let response = deposit(&mut ledger, alice(), 1, collateral(500), collateral_quote());
    assert_eq!(
        response,
        Ok(Response {
            messages: vec![],
            attributes: vec![
                Attribute::Action(Action::Deposit),
                Attribute::PositionIdx(1),
                Attribute::DepositAmount(collateral(500)),
            ],
        })
    );
    assert_eq!(read_position(&ledger, 1), Ok(position(1500, 1000)));
}

#[test]
fn deposit_accepts_a_stale_tolerant_quote_at_any_price() {
    let mut ledger = ledger_with_position();
    let response = deposit(
        &mut ledger,
        alice(),
        1,
        collateral(1),
        collateral_quote_with(Decimal::zero(), Decimal::percent(900), false),
    );
    assert!(response.is_ok());
    assert_eq!(read_position(&ledger, 1), Ok(position(1001, 1000)));
}

#[test]
fn deposit_needs_a_configured_ledger() {
    let mut ledger = Ledger::new();
    store_position(&mut ledger, 1, &position(1000, 1000));
    let response = deposit(&mut ledger, alice(), 1, collateral(500), collateral_quote());
    assert_eq!(response, Err(ContractError::NotInitialized));
}

#[test]
fn deposit_needs_the_position() {
    let mut ledger = ledger_with_position();
    let response = deposit(&mut ledger, alice(), 2, collateral(500), collateral_quote());
    assert_eq!(response, Err(ContractError::PositionNotFound));
}

#[test]
fn deposit_is_for_the_owner() {
    let mut ledger = ledger_with_position();
    let response = deposit(&mut ledger, bob(), 1, collateral(500), collateral_quote());
    assert_eq!(response, Err(ContractError::Unauthorized));
    assert_eq!(read_position(&ledger, 1), Ok(position(1000, 1000)));
}

#[test]
fn deposit_refuses_another_collateral_asset() {
    let mut ledger = ledger_with_position();
    let other = Asset { info: AssetInfo::NativeToken { denom: "D".to_string() }, amount: 500 };
    let response = deposit(&mut ledger, alice(), 1, other, collateral_quote());
    assert_eq!(response, Err(ContractError::Validation(ValidationError::WrongCollateral)));
    let token_of_same_name =
        Asset { info: AssetInfo::Token { contract_addr: "C".to_string() }, amount: 500 };
    let response = deposit(&mut ledger, alice(), 1, token_of_same_name, collateral_quote());
    assert_eq!(response, Err(ContractError::Validation(ValidationError::WrongCollateral)));
}

#[test]
fn deposit_refuses_a_zero_amount() {
    let mut ledger = ledger_with_position();
    let response = deposit(&mut ledger, alice(), 1, collateral(0), collateral_quote());
    assert_eq!(response, Err(ContractError::Validation(ValidationError::WrongCollateral)));
}

#[test]
fn deposit_hands_on_the_collateral_oracle_failure() {
    let mut ledger = ledger_with_position();
    let response =
        deposit(&mut ledger, alice(), 1, collateral(500), Err(OracleError::PriceUnavailable));
    assert_eq!(response, Err(ContractError::Oracle(OracleError::PriceUnavailable)));
}

#[test]
fn deposit_refuses_revoked_collateral() {
    let mut ledger = ledger_with_position();
    let response = deposit(
        &mut ledger,
        alice(),
        1,
        collateral(500),
        collateral_quote_with(Decimal::percent(1000), Decimal::one(), true),
    );
    assert_eq!(response, Err(ContractError::Registry(RegistryError::AssetRevoked)));
}

#[test]
fn deposit_refuses_a_migrated_asset() {
    let mut ledger = ledger_with_position();
    migrate(&mut ledger);
    let response = deposit(&mut ledger, alice(), 1, collateral(500), collateral_quote());
    assert_eq!(response, Err(ContractError::Registry(RegistryError::AssetMigrated)));
    assert_eq!(read_position(&ledger, 1), Ok(position(1000, 1000)));
}

#[test]
fn deposit_refuses_a_position_in_an_unregistered_asset() {
    let mut ledger = ledger();
    let stray = Position {
        idx: 7,
        owner: alice(),
        collateral: collateral(1000),
        asset: Asset { info: AssetInfo::Token { contract_addr: "T".to_string() }, amount: 10 },
    };
    store_position(&mut ledger, 7, &stray);
    let response = deposit(&mut ledger, alice(), 7, collateral(500), collateral_quote());
    assert_eq!(response, Err(ContractError::Registry(RegistryError::UnknownAsset)));
}

#[test]
fn deposit_reports_a_balance_that_overflows() {
    let mut ledger = ledger_with_position();
    let response = deposit(&mut ledger, alice(), 1, collateral(u128::MAX - 999), collateral_quote());
    assert_eq!(response, Err(ContractError::Arithmetic(ArithmeticError::Overflow)));
    assert_eq!(read_position(&ledger, 1), Ok(position(1000, 1000)));
    let response = deposit(&mut ledger, alice(), 1, collateral(u128::MAX - 1000), collateral_quote());
    assert!(response.is_ok());
    assert_eq!(read_position(&ledger, 1), Ok(position(u128::MAX, 1000)));
}

#[test]
fn requirement_is_debt_value_at_minimum_ratio_and_multiplier() {
    let check = |available: u128, debt: u128, multiplier: Decimal| {
        assert_min_collateral_ratio(
            available,
            debt,
            Decimal::percent(500),
            Decimal::percent(1000),
            Decimal::percent(150),
            multiplier,
        )
    };
    // 1000 * (5 / 10) * 1.5 * 1.0 = 750
    assert_eq!(check(750, 1000, Decimal::one()), Ok(()));
    assert_eq!(check(749, 1000, Decimal::one()), Err(ContractError::InsufficientCollateral));
    // 1000 * (5 / 10) * 1.5 * 1.2 = 900
    assert_eq!(check(900, 1000, Decimal::percent(120)), Ok(()));
    assert_eq!(check(899, 1000, Decimal::percent(120)), Err(ContractError::InsufficientCollateral));
    // No debt requires nothing.
    assert_eq!(check(0, 0, Decimal::one()), Ok(()));
}

#[test]
fn requirement_is_not_rounded() {
    let check = |available: u128, debt: u128, multiplier: Decimal| {
        assert_min_collateral_ratio(
            available,
            debt,
            Decimal::percent(500),
            Decimal::percent(1000),
            Decimal::percent(150),
            multiplier,
        )
    };
    // 1334 * (5 / 10) * 1.5 = 1000.5
    assert_eq!(check(1000, 1334, Decimal::one()), Err(ContractError::InsufficientCollateral));
    assert_eq!(check(1001, 1334, Decimal::one()), Ok(()));
    // 1333 * (5 / 10) * 1.5 = 999.75
    assert_eq!(check(1000, 1333, Decimal::one()), Ok(()));
    assert_eq!(check(999, 1333, Decimal::one()), Err(ContractError::InsufficientCollateral));
    // 2 * (5 / 10) * 1.5 * 2 = 3
    assert_eq!(check(2, 2, Decimal::percent(200)), Err(ContractError::InsufficientCollateral));
    assert_eq!(check(3, 2, Decimal::percent(200)), Ok(()));
    // 7 * (1 / 3) * 1.5 = 3.5: a price ratio that no decimal holds is not rounded either.
    let thirds = |available: u128| {
        assert_min_collateral_ratio(
            available,
            7,
            Decimal::one(),
            Decimal::percent(300),
            Decimal::percent(150),
            Decimal::one(),
        )
    };
    assert_eq!(thirds(3), Err(ContractError::InsufficientCollateral));
    assert_eq!(thirds(4), Ok(()));
}

#[test]
fn requirement_is_decided_for_numbers_of_any_size() {
    // Collateral without a price covers nothing.
    assert_eq!(
        assert_min_collateral_ratio(
            1000,
            0,
            Decimal::percent(500),
            Decimal::zero(),
            Decimal::percent(150),
            Decimal::one(),
        ),
        Err(ContractError::Arithmetic(ArithmeticError::DivideByZero))
    );
    // u128::MAX * (10 / 5) * 1.5 is three times u128::MAX: more than any collateral.
    assert_eq!(
        assert_min_collateral_ratio(
            u128::MAX,
            u128::MAX,
            Decimal::percent(1000),
            Decimal::percent(500),
            Decimal::percent(150),
            Decimal::one(),
        ),
        Err(ContractError::InsufficientCollateral)
    );
    // At a ratio of one and equal prices the largest debt is covered by as much
    // collateral, and by no less.
    assert_eq!(
        assert_min_collateral_ratio(
            u128::MAX,
            u128::MAX,
            Decimal::one(),
            Decimal::one(),
            Decimal::one(),
            Decimal::one(),
        ),
        Ok(())
    );
    assert_eq!(
        assert_min_collateral_ratio(
            u128::MAX - 1,
            u128::MAX,
            Decimal::one(),
            Decimal::one(),
            Decimal::one(),
            Decimal::one(),
        ),
        Err(ContractError::InsufficientCollateral)
    );
    // The largest factors on both sides.
    assert_eq!(
        assert_min_collateral_ratio(
            u128::MAX,
            u128::MAX,
            Decimal::new(u128::MAX),
            Decimal::new(u128::MAX),
            Decimal::one(),
            Decimal::one(),
        ),
        Ok(())
    );
    assert_eq!(
        assert_min_collateral_ratio(
            u128::MAX,
            u128::MAX,
            Decimal::new(u128::MAX),
            Decimal::new(u128::MAX),
            Decimal::new(ONE + 1),
            Decimal::one(),
        ),
        Err(ContractError::InsufficientCollateral)
    );
}

#[test]
fn products_are_compared_in_full() {
    assert!(product_exceeds(2, 3, 5, 7, 209, 1, 1, 1));
    assert!(!product_exceeds(2, 3, 5, 7, 210, 1, 1, 1));
    assert!(!product_exceeds(2, 3, 5, 7, 211, 1, 1, 1));
    assert!(!product_exceeds(0, u128::MAX, u128::MAX, u128::MAX, 0, 0, 0, 0));
    assert!(product_exceeds(1, 1, 1, 1, 0, u128::MAX, u128::MAX, u128::MAX));
    let max = u128::MAX;
    assert!(!product_exceeds(max, max, max, max, max, max, max, max));
    assert!(product_exceeds(max, max, max, max, max, max, max, max - 1));
    assert!(!product_exceeds(max, max, max, max - 1, max, max, max, max));
    // 2^64 * 2^64 = 2^127 * 2: equal, though neither product fits in 128 bits.
    assert!(!product_exceeds(1 << 64, 1 << 64, 1, 1, 1 << 127, 2, 1, 1));
    assert!(product_exceeds(1 << 64, 1 << 64, 1, 1, (1 << 127) - 1, 2, 1, 1));
    // The order of the factors makes no difference.
    assert!(product_exceeds(1, max, 1, 2, 1, 1, max, 1));
    assert!(!product_exceeds(1, 1, max, 1, 2, max, 1, 1));
}

#[test]
fn collateral_check_passes_at_the_requirement_and_fails_below() {
    let check = |available: u128| {
        assert_min_collateral_ratio(
            available,
            1000,
            Decimal::percent(500),
            Decimal::percent(1000),
            Decimal::percent(150),
            Decimal::one(),
        )
    };
    assert_eq!(check(751), Ok(()));
    assert_eq!(check(750), Ok(()));
    assert_eq!(check(749), Err(ContractError::InsufficientCollateral));
    assert_eq!(check(0), Err(ContractError::InsufficientCollateral));
    assert_eq!(
        assert_min_collateral_ratio(
            750,
            1000,
            Decimal::percent(500),
            Decimal::zero(),
            Decimal::percent(150),
            Decimal::one(),
        ),
        Err(ContractError::Arithmetic(ArithmeticError::DivideByZero))
    );
}

#[test]
fn withdraw_below_the_requirement_fails() {
    // required = 1000 * (5 / 10) * 1.5 * 1.0 = 750
    let mut ledger = ledger_with_position();
    let response =
        withdraw(&mut ledger, alice(), 1, Some(collateral(260)), collateral_quote(), asset_quote());
    assert_eq!(response, Err(ContractError::InsufficientCollateral));
    assert_eq!(read_position(&ledger, 1), Ok(position(1000, 1000)));
}

#[test]
fn withdraw_down_to_the_requirement_succeeds() {
    let mut ledger = ledger_with_position();
    let response =
        withdraw(&mut ledger, alice(), 1, Some(collateral(250)), collateral_quote(), asset_quote());
    assert_eq!(
        response,
        Ok(Response {
            messages: vec![Instruction::Transfer { recipient: alice(), asset: collateral(250) }],
            attributes: vec![
                Attribute::Action(Action::Withdraw),
                Attribute::PositionIdx(1),
                Attribute::WithdrawAmount(collateral(250)),
            ],
        })
    );
    assert_eq!(read_position(&ledger, 1), Ok(position(750, 1000)));
}

#[test]
fn withdraw_one_unit_past_the_boundary_fails() {
    let mut ledger = ledger_with_position();
    let response =
        withdraw(&mut ledger, alice(), 1, Some(collateral(251)), collateral_quote(), asset_quote());
    assert_eq!(response, Err(ContractError::InsufficientCollateral));
    assert_eq!(read_position(&ledger, 1), Ok(position(1000, 1000)));
}

#[test]
fn withdraw_stores_a_balance_that_is_not_zero() {
    let mut ledger = ledger_with_position();
    assert!(
        withdraw(&mut ledger, alice(), 1, Some(collateral(100)), collateral_quote(), asset_quote())
            .is_ok()
    );
    assert_eq!(read_position(&ledger, 1), Ok(position(900, 1000)));
    assert!(
        withdraw(&mut ledger, alice(), 1, Some(collateral(100)), collateral_quote(), asset_quote())
            .is_ok()
    );
    assert_eq!(read_position(&ledger, 1), Ok(position(800, 1000)));
}

#[test]
fn withdraw_everything_from_a_position_without_debt() {
    let mut ledger = ledger();
    melange_mint::state::create_position(&mut ledger, 1, &position(1000, 0));
    let response = withdraw(&mut ledger, alice(), 1, None, collateral_quote(), asset_quote());
    assert_eq!(
        response,
        Ok(Response {
            messages: vec![Instruction::Transfer { recipient: alice(), asset: collateral(1000) }],
            attributes: vec![
                Attribute::Action(Action::Withdraw),
                Attribute::PositionIdx(1),
                Attribute::WithdrawAmount(collateral(1000)),
            ],
        })
    );
    // The emptied position stays in the ledger and in its indices.
    assert_eq!(read_position(&ledger, 1), Ok(position(0, 0)));
    assert!(is_indexed_by_user(&ledger, &alice(), 1));
    assert!(is_indexed_by_asset(&ledger, &synthetic_info(), 1));
}

#[test]
fn withdraw_everything_from_a_position_with_debt_fails() {
    let mut ledger = ledger_with_position();
    let response = withdraw(&mut ledger, alice(), 1, None, collateral_quote(), asset_quote());
    assert_eq!(response, Err(ContractError::InsufficientCollateral));
}

#[test]
fn withdraw_needs_the_position() {
    let mut ledger = ledger_with_position();
    let response =
        withdraw(&mut ledger, alice(), 5, Some(collateral(1)), collateral_quote(), asset_quote());
    assert_eq!(response, Err(ContractError::PositionNotFound));
}

#[test]
fn withdraw_is_for_the_owner() {
    let mut ledger = ledger_with_position();
    let response =
        withdraw(&mut ledger, bob(), 1, Some(collateral(1)), collateral_quote(), asset_quote());
    assert_eq!(response, Err(ContractError::Unauthorized));
    let response = withdraw(&mut ledger, bob(), 1, None, collateral_quote(), asset_quote());
    assert_eq!(response, Err(ContractError::Unauthorized));
}

#[test]
fn withdraw_refuses_another_asset_and_a_zero_amount() {
    let mut ledger = ledger_with_position();
    let response =
        withdraw(&mut ledger, alice(), 1, Some(synthetic(1)), collateral_quote(), asset_quote());
    assert_eq!(response, Err(ContractError::Validation(ValidationError::WrongCollateral)));
    let response =
        withdraw(&mut ledger, alice(), 1, Some(collateral(0)), collateral_quote(), asset_quote());
    assert_eq!(response, Err(ContractError::Validation(ValidationError::WrongCollateral)));
}

#[test]
fn withdraw_refuses_more_than_the_balance() {
    let mut ledger = ledger_with_position();
    let response =
        withdraw(&mut ledger, alice(), 1, Some(collateral(1001)), collateral_quote(), asset_quote());
    assert_eq!(response, Err(ContractError::Validation(ValidationError::ExcessiveWithdrawal)));
}

#[test]
fn withdraw_hands_on_oracle_failures() {
    let mut ledger = ledger_with_position();
    let response = withdraw(
        &mut ledger,
        alice(),
        1,
        Some(collateral(1)),
        collateral_quote(),
        Err(OracleError::StalePrice),
    );
    assert_eq!(response, Err(ContractError::Oracle(OracleError::StalePrice)));
    let response = withdraw(
        &mut ledger,
        alice(),
        1,
        Some(collateral(1)),
        Err(OracleError::PriceUnavailable),
        asset_quote(),
    );
    assert_eq!(response, Err(ContractError::Oracle(OracleError::PriceUnavailable)));
    // The price oracle is asked first.
    let response = withdraw(
        &mut ledger,
        alice(),
        1,
        Some(collateral(1)),
        Err(OracleError::PriceUnavailable),
        Err(OracleError::StalePrice),
    );
    assert_eq!(response, Err(ContractError::Oracle(OracleError::StalePrice)));
}

#[test]
fn withdraw_reports_a_collateral_price_of_zero() {
    let mut ledger = ledger_with_position();
    let response = withdraw(
        &mut ledger,
        alice(),
        1,
        Some(collateral(1)),
        collateral_quote_with(Decimal::zero(), Decimal::one(), false),
        asset_quote(),
    );
    assert_eq!(response, Err(ContractError::Arithmetic(ArithmeticError::DivideByZero)));
}

#[test]
fn withdraw_is_judged_by_the_multiplier() {
    // required = 1000 * (5 / 10) * 1.5 * 1.2 = 900
    let mut ledger = ledger_with_position();
    let quote = collateral_quote_with(Decimal::percent(1000), Decimal::percent(120), false);
    let response = withdraw(&mut ledger, alice(), 1, Some(collateral(101)), quote, asset_quote());
    assert_eq!(response, Err(ContractError::InsufficientCollateral));
    let response = withdraw(&mut ledger, alice(), 1, Some(collateral(100)), quote, asset_quote());
    assert!(response.is_ok());
    assert_eq!(read_position(&ledger, 1), Ok(position(900, 1000)));
}

#[test]
fn withdraw_is_allowed_from_revoked_collateral() {
    let mut ledger = ledger_with_position();
    let quote = collateral_quote_with(Decimal::percent(1000), Decimal::one(), true);
    let response = withdraw(&mut ledger, alice(), 1, Some(collateral(250)), quote, asset_quote());
    assert!(response.is_ok());
    assert_eq!(read_position(&ledger, 1), Ok(position(750, 1000)));
}

#[test]
fn withdraw_from_a_migrated_asset_ignores_the_multiplier() {
    let mut ledger = ledger_with_position();
    migrate(&mut ledger);
    // With the multiplier of 3.0 the requirement would be 2250; at 1.0 it is 750.
    let quote = collateral_quote_with(Decimal::percent(1000), Decimal::percent(300), false);
    let response = withdraw(&mut ledger, alice(), 1, Some(collateral(251)), quote, asset_quote());
    assert_eq!(response, Err(ContractError::InsufficientCollateral));
    let response = withdraw(&mut ledger, alice(), 1, Some(collateral(250)), quote, asset_quote());
    assert!(response.is_ok());
    assert_eq!(read_position(&ledger, 1), Ok(position(750, 1000)));
}

#[test]
fn mint_adds_to_the_debt_only() {
    let mut ledger = ledger_with_position();
    // required for 1200 = 1200 * 0.5 * 1.5 = 900
    let response = mint(&mut ledger, alice(), 1, synthetic(200), collateral_quote(), asset_quote());
    assert_eq!(
        response,
        Ok(Response {
            messages: vec![Instruction::Mint {
                token: "S".to_string(),
                recipient: alice(),
                amount: 200,
            }],
            attributes: vec![
                Attribute::Action(Action::Mint),
                Attribute::PositionIdx(1),
                Attribute::MintAmount(synthetic(200)),
            ],
        })
    );
    assert_eq!(read_position(&ledger, 1), Ok(position(1000, 1200)));
}

#[test]
fn mint_up_to_the_requirement_and_no_further() {
    // 1000 covers a debt d where d * 0.5 * 1.5 <= 1000: the largest is 1333, which
    // requires 999.75. A debt of 1334 requires 1000.5.
    let mut ledger = ledger_with_position();
    let response = mint(&mut ledger, alice(), 1, synthetic(334), collateral_quote(), asset_quote());
    assert_eq!(response, Err(ContractError::InsufficientCollateral));
    assert_eq!(read_position(&ledger, 1), Ok(position(1000, 1000)));
    let response = mint(&mut ledger, alice(), 1, synthetic(333), collateral_quote(), asset_quote());
    assert!(response.is_ok());
    assert_eq!(read_position(&ledger, 1), Ok(position(1000, 1333)));
}

#[test]
fn withdraw_is_held_to_the_unrounded_requirement() {
    // A debt of 1334 requires 1000.5: of 1001 units nothing can be taken out.
    let mut ledger = ledger();
    melange_mint::state::create_position(&mut ledger, 1, &position(1001, 1334));
    let response =
        withdraw(&mut ledger, alice(), 1, Some(collateral(1)), collateral_quote(), asset_quote());
    assert_eq!(response, Err(ContractError::InsufficientCollateral));
    assert_eq!(read_position(&ledger, 1), Ok(position(1001, 1334)));
    // A debt of 2 at a multiplier of 2 requires 3: of 1000 units 997 can be taken out.
    let second = Position { idx: 2, ..position(1000, 2) };
    melange_mint::state::create_position(&mut ledger, 2, &second);
    let quote = collateral_quote_with(Decimal::percent(1000), Decimal::percent(200), false);
    let response = withdraw(&mut ledger, alice(), 2, Some(collateral(998)), quote, asset_quote());
    assert_eq!(response, Err(ContractError::InsufficientCollateral));
    let response = withdraw(&mut ledger, alice(), 2, Some(collateral(997)), quote, asset_quote());
    assert!(response.is_ok());
    assert_eq!(read_position(&ledger, 2).unwrap().collateral.amount, 3);
}

#[test]
fn mint_needs_the_position() {
    let mut ledger = ledger_with_position();
    let response = mint(&mut ledger, alice(), 3, synthetic(1), collateral_quote(), asset_quote());
    assert_eq!(response, Err(ContractError::PositionNotFound));
}

#[test]
fn mint_is_for_the_owner() {
    let mut ledger = ledger_with_position();
    let response = mint(&mut ledger, bob(), 1, synthetic(1), collateral_quote(), asset_quote());
    assert_eq!(response, Err(ContractError::Unauthorized));
}

#[test]
fn mint_refuses_another_asset_and_a_zero_amount() {
    let mut ledger = ledger_with_position();
    let response = mint(&mut ledger, alice(), 1, collateral(1), collateral_quote(), asset_quote());
    assert_eq!(response, Err(ContractError::Validation(ValidationError::WrongAsset)));
    let response = mint(&mut ledger, alice(), 1, synthetic(0), collateral_quote(), asset_quote());
    assert_eq!(response, Err(ContractError::Validation(ValidationError::WrongAsset)));
}

#[test]
fn mint_refuses_a_migrated_asset() {
    let mut ledger = ledger_with_position();
    migrate(&mut ledger);
    let response = mint(&mut ledger, alice(), 1, synthetic(1), collateral_quote(), asset_quote());
    assert_eq!(response, Err(ContractError::Registry(RegistryError::AssetMigrated)));
    assert_eq!(read_position(&ledger, 1), Ok(position(1000, 1000)));
}

#[test]
fn mint_refuses_revoked_collateral() {
    let mut ledger = ledger_with_position();
    let response = mint(
        &mut ledger,
        alice(),
        1,
        synthetic(1),
        collateral_quote_with(Decimal::percent(1000), Decimal::one(), true),
        asset_quote(),
    );
    assert_eq!(response, Err(ContractError::Registry(RegistryError::AssetRevoked)));
}

#[test]
fn mint_hands_on_oracle_failures() {
    let mut ledger = ledger_with_position();
    let response =
        mint(&mut ledger, alice(), 1, synthetic(1), Err(OracleError::StalePrice), asset_quote());
    assert_eq!(response, Err(ContractError::Oracle(OracleError::StalePrice)));
    let response = mint(
        &mut ledger,
        alice(),
        1,
        synthetic(1),
        collateral_quote(),
        Err(OracleError::PriceUnavailable),
    );
    assert_eq!(response, Err(ContractError::Oracle(OracleError::PriceUnavailable)));
    // The collateral oracle is asked first.
    let response = mint(
        &mut ledger,
        alice(),
        1,
        synthetic(1),
        Err(OracleError::StalePrice),
        Err(OracleError::PriceUnavailable),
    );
    assert_eq!(response, Err(ContractError::Oracle(OracleError::StalePrice)));
}

#[test]
fn mint_reports_a_debt_that_overflows() {
    let mut ledger = ledger_with_position();
    let response =
        mint(&mut ledger, alice(), 1, synthetic(u128::MAX), collateral_quote(), asset_quote());
    assert_eq!(response, Err(ContractError::Arithmetic(ArithmeticError::Overflow)));
    assert_eq!(read_position(&ledger, 1), Ok(position(1000, 1000)));
}

#[test]
fn mint_is_judged_by_the_multiplier() {
    // At a multiplier of 2.0 the position's 1000 units of debt already require 1500.
    let mut ledger = ledger_with_position();
    let quote = collateral_quote_with(Decimal::percent(1000), Decimal::percent(200), false);
    let response = mint(&mut ledger, alice(), 1, synthetic(1), quote, asset_quote());
    assert_eq!(response, Err(ContractError::InsufficientCollateral));
}

#[test]
fn every_successful_step_leaves_the_position_covered() {
    let mut ledger = ledger_with_position();
    let covered = |ledger: &Ledger| {
        let position = read_position(ledger, 1).unwrap();
        assert_min_collateral_ratio(
            position.collateral.amount,
            position.asset.amount,
            Decimal::percent(500),
            Decimal::percent(1000),
            Decimal::percent(150),
            Decimal::one(),
        )
    };
    assert_eq!(covered(&ledger), Ok(()));
    assert!(mint(&mut ledger, alice(), 1, synthetic(300), collateral_quote(), asset_quote()).is_ok());
    assert_eq!(covered(&ledger), Ok(()));
    assert!(deposit(&mut ledger, alice(), 1, collateral(40), collateral_quote()).is_ok());
    assert_eq!(covered(&ledger), Ok(()));
    assert!(
        withdraw(&mut ledger, alice(), 1, Some(collateral(65)), collateral_quote(), asset_quote())
            .is_ok()
    );
    assert_eq!(covered(&ledger), Ok(()));
    assert_eq!(read_position(&ledger, 1), Ok(position(975, 1300)));
    assert!(
        withdraw(&mut ledger, alice(), 1, Some(collateral(1)), collateral_quote(), asset_quote())
            .is_err()
    );
    assert!(mint(&mut ledger, alice(), 1, synthetic(2), collateral_quote(), asset_quote()).is_err());
}
