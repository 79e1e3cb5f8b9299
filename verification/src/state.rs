//! The ledger: configuration, asset registry, positions, their two indices and the
//! counter that issues position identifiers.

use crate::asset::{Asset, AssetInfo, AssetInfoView, AssetView};
use crate::error::{ContractError, RegistryError};
use crate::math::Decimal;
use std::collections::HashMap;
use vstd::hash_map::StringHashMap;
use vstd::prelude::*;

verus! {

broadcast use vstd::std_specs::hash::group_hash_axioms;

/// The global configuration, written once when the ledger is set up.
#[derive(Debug, PartialEq, Eq)]
pub struct Config {
    pub owner: String,
    pub oracle: String,
    pub collector: String,
    pub collateral_oracle: String,
    pub staking: String,
    pub melange_factory: String,
    pub lock: String,
    pub base_denom: String,
    pub token_code_id: u64,
    pub protocol_fee_rate: Decimal,
}

/// The model of a [`Config`].
pub struct ConfigView {
    pub owner: Seq<char>,
    pub oracle: Seq<char>,
    pub collector: Seq<char>,
    pub collateral_oracle: Seq<char>,
    pub staking: Seq<char>,
    pub melange_factory: Seq<char>,
    pub lock: Seq<char>,
    pub base_denom: Seq<char>,
    pub token_code_id: u64,
    pub protocol_fee_rate: Decimal,
}

/// What the registry holds of one synthetic asset. An asset with an end price has been
/// migrated: it is frozen and accepts no new exposure.
#[derive(Debug, PartialEq, Eq)]
pub struct AssetConfig {
    pub token: String,
    pub min_collateral_ratio: Decimal,
    pub end_price: Option<Decimal>,
}

/// The model of an [`AssetConfig`].
pub struct AssetConfigView {
    pub token: Seq<char>,
    pub min_collateral_ratio: Decimal,
    pub end_price: Option<Decimal>,
}

/// Collateral locked by one owner and the synthetic debt minted against it.
#[derive(Debug, PartialEq, Eq)]
pub struct Position {
    pub idx: u128,
    pub owner: String,
    pub collateral: Asset,
    pub asset: Asset,
}

/// The model of a [`Position`].
pub struct PositionView {
    pub idx: u128,
    pub owner: Seq<char>,
    pub collateral: AssetView,
    pub asset: AssetView,
}

impl View for Config {
    type V = ConfigView;

    open spec fn view(&self) -> ConfigView {
        ConfigView {
            owner: self.owner@,
            oracle: self.oracle@,
            collector: self.collector@,
            collateral_oracle: self.collateral_oracle@,
            staking: self.staking@,
            melange_factory: self.melange_factory@,
            lock: self.lock@,
            base_denom: self.base_denom@,
            token_code_id: self.token_code_id,
            protocol_fee_rate: self.protocol_fee_rate,
        }
    }
}

impl View for AssetConfig {
    type V = AssetConfigView;

    open spec fn view(&self) -> AssetConfigView {
        AssetConfigView {
            token: self.token@,
            min_collateral_ratio: self.min_collateral_ratio,
            end_price: self.end_price,
        }
    }
}

impl View for Position {
    type V = PositionView;

    open spec fn view(&self) -> PositionView {
        PositionView {
            idx: self.idx,
            owner: self.owner@,
            collateral: self.collateral@,
            asset: self.asset@,
        }
    }
}

impl Clone for Config {
    fn clone(&self) -> (r: Self)
        ensures
            r == *self,
    {
        Config {
            owner: self.owner.clone(),
            oracle: self.oracle.clone(),
            collector: self.collector.clone(),
            collateral_oracle: self.collateral_oracle.clone(),
            staking: self.staking.clone(),
            melange_factory: self.melange_factory.clone(),
            lock: self.lock.clone(),
            base_denom: self.base_denom.clone(),
            token_code_id: self.token_code_id,
            protocol_fee_rate: self.protocol_fee_rate,
        }
    }
}

impl Clone for AssetConfig {
    fn clone(&self) -> (r: Self)
        ensures
            r == *self,
    {
        AssetConfig {
            token: self.token.clone(),
            min_collateral_ratio: self.min_collateral_ratio,
            end_price: self.end_price,
        }
    }
}

impl Clone for Position {
    fn clone(&self) -> (r: Self)
        ensures
            r == *self,
    {
        Position {
            idx: self.idx,
            owner: self.owner.clone(),
            collateral: self.collateral.clone(),
            asset: self.asset.clone(),
        }
    }
}

/// Everything that is persisted.
///
/// The positions are keyed by their identifier. The two indices are membership sets
/// of (owner, identifier) and (synthetic asset, identifier); entries are only ever
/// added.
pub struct Ledger {
    config: Option<Config>,
    position_idx: Option<u128>,
    asset_configs: StringHashMap<AssetConfig>,
    positions: HashMap<u128, Position>,
    user_index: Vec<(String, u128)>,
    asset_index: Vec<(AssetInfo, u128)>,
}

/// The model of a [`Ledger`].
#[verifier::ext_equal]
pub struct LedgerView {
    /// The configuration, once it has been stored.
    pub config: Option<ConfigView>,
    /// The identifier that the next new position gets, once the counter has been stored.
    pub position_idx: Option<u128>,
    /// The registry, keyed by the synthetic token's address.
    pub asset_configs: Map<Seq<char>, AssetConfigView>,
    /// The positions, keyed by identifier.
    pub positions: Map<u128, PositionView>,
    /// The index by owner.
    pub user_index: Set<(Seq<char>, u128)>,
    /// The index by synthetic asset.
    pub asset_index: Set<(AssetInfoView, u128)>,
}

impl LedgerView {
    /// The ledger before anything has been stored.
    pub open spec fn empty() -> LedgerView {
        LedgerView {
            config: None,
            position_idx: None,
            asset_configs: Map::empty(),
            positions: Map::empty(),
            user_index: Set::empty(),
            asset_index: Set::empty(),
        }
    }

    /// The ledger after `position` has been written under `idx` and entered in both
    /// indices.
    pub open spec fn with_new_position(self, idx: u128, position: PositionView) -> LedgerView {
        LedgerView {
            positions: self.positions.insert(idx, position),
            user_index: self.user_index.insert((position.owner, idx)),
            asset_index: self.asset_index.insert((position.asset.info, idx)),
            ..self
        }
    }

    /// The ledger after `position` has been written under `idx`, the indices untouched.
    pub open spec fn with_position(self, idx: u128, position: PositionView) -> LedgerView {
        LedgerView { positions: self.positions.insert(idx, position), ..self }
    }

    /// The fixed price of an asset: the end price of a registered, migrated token.
    pub open spec fn fixed_price(self, asset_info: AssetInfoView) -> Option<Decimal> {
        match asset_info {
            AssetInfoView::Token { contract_addr } => {
                if self.asset_configs.contains_key(contract_addr) {
                    self.asset_configs[contract_addr].end_price
                } else {
                    None
                }
            },
            AssetInfoView::NativeToken { .. } => None,
        }
    }

    /// The indices agree with the positions, and the counter is ahead of every
    /// identifier in use:
    /// - a position is stored under its own identifier;
    /// - every position is entered in both indices under its owner and its synthetic asset;
    /// - every index entry names a stored position;
    /// - once the counter is stored, every identifier in use is below it.
    pub open spec fn consistent(self) -> bool {
        &&& forall|idx: u128| #[trigger]
            self.positions.contains_key(idx) ==> {
                &&& self.positions[idx].idx == idx
                &&& self.user_index.contains((self.positions[idx].owner, idx))
                &&& self.asset_index.contains((self.positions[idx].asset.info, idx))
                &&& (self.position_idx matches Some(next) ==> idx < next)
            }
        &&& forall|owner: Seq<char>, idx: u128| #[trigger]
            self.user_index.contains((owner, idx)) ==> self.positions.contains_key(idx)
        &&& forall|info: AssetInfoView, idx: u128| #[trigger]
            self.asset_index.contains((info, idx)) ==> self.positions.contains_key(idx)
    }
}

/// What an index files positions under: a value that can be told from another by its
/// model.
trait IndexKey: View + Sized {
    /// Whether both have the same model.
    fn same(&self, other: &Self) -> (b: bool)
        ensures
            b == (self@ == other@),
    ;
}

impl IndexKey for String {
    fn same(&self, other: &Self) -> (b: bool) {
        *self == *other
    }
}

impl IndexKey for AssetInfo {
    fn same(&self, other: &Self) -> (b: bool) {
        self.equal(other)
    }
}

/// The set that an index stands for: the pairs of a key's model and an identifier that
/// have been entered.
pub closed spec fn index_entries<K: View>(entries: Seq<(K, u128)>) -> Set<(K::V, u128)> {
    Set::new(
        |e: (K::V, u128)|
            exists|i: int|
                0 <= i < entries.len() && (#[trigger] entries[i]).0@ == e.0 && entries[i].1 == e.1,
    )
}

/// Entering a pair in an index adds it to the set that the index stands for.
proof fn lemma_index_entries_push<K: View>(entries: Seq<(K, u128)>, entry: (K, u128))
    ensures
        index_entries(entries.push(entry)) == index_entries(entries).insert((entry.0@, entry.1)),
{
    let grown = entries.push(entry);
    assert forall|e: (K::V, u128)|
        index_entries(grown).contains(e) == index_entries(entries).insert(
            (entry.0@, entry.1),
        ).contains(e) by {
        if index_entries(entries).contains(e) {
            let i = choose|i: int|
                0 <= i < entries.len() && (#[trigger] entries[i]).0@ == e.0 && entries[i].1 == e.1;
            assert(grown[i] == entries[i]);
        }
        if e == (entry.0@, entry.1) {
            assert(grown[entries.len() as int] == entry);
        }
        if index_entries(grown).contains(e) {
            let i = choose|i: int|
                0 <= i < grown.len() && (#[trigger] grown[i]).0@ == e.0 && grown[i].1 == e.1;
            if i < entries.len() {
                assert(grown[i] == entries[i]);
            }
        }
    }
    assert(index_entries(grown) =~= index_entries(entries).insert((entry.0@, entry.1)));
}

/// Whether an index holds `idx` under `key`.
fn index_holds<K: IndexKey>(entries: &Vec<(K, u128)>, key: &K, idx: u128) -> (b: bool)
    ensures
        b == index_entries(entries@).contains((key@, idx)),
{
    let mut i: usize = 0;
    while i < entries.len()
        invariant
            i <= entries.len(),
            forall|j: int|
                0 <= j < i ==> !((#[trigger] entries@[j]).0@ == key@ && entries@[j].1 == idx),
        decreases entries.len() - i,
    {
        if entries[i].1 == idx && entries[i].0.same(key) {
            return true;
        }
        i += 1;
    }
    false
}

impl View for Ledger {
    type V = LedgerView;

    closed spec fn view(&self) -> LedgerView {
        LedgerView {
            config: match self.config {
                Some(config) => Some(config@),
                None => None,
            },
            position_idx: self.position_idx,
            asset_configs: self.asset_configs@.map_values(|c: AssetConfig| c@),
            positions: self.positions@.map_values(|p: Position| p@),
            user_index: index_entries(self.user_index@),
            asset_index: index_entries(self.asset_index@),
        }
    }
}

impl Ledger {
    /// A ledger in which nothing has been stored.
    pub fn new() -> (ledger: Ledger)
        ensures
            ledger@ == LedgerView::empty(),
            ledger@.consistent(),
    {
        let ledger = Ledger {
            config: None,
            position_idx: None,
            asset_configs: StringHashMap::new(),
            positions: HashMap::new(),
            user_index: Vec::new(),
            asset_index: Vec::new(),
        };
        assert(ledger@ =~= LedgerView::empty());
        ledger
    }
}

/// Sets the counter: the identifier that the next new position gets. The ledger stays
/// consistent where every identifier in use is below the new value.
pub fn store_position_idx(storage: &mut Ledger, position_idx: u128)
    ensures
        final(storage)@ == (LedgerView { position_idx: Some(position_idx), ..old(storage)@ }),
        old(storage)@.consistent() && (forall|idx: u128| #[trigger]
            old(storage)@.positions.contains_key(idx) ==> idx < position_idx)
            ==> final(storage)@.consistent(),
{
    storage.position_idx = Some(position_idx);
}

/// The counter; an error while none has been stored.
pub fn read_position_idx(storage: &Ledger) -> (r: Result<u128, ContractError>)
    ensures
        match storage@.position_idx {
            Some(idx) => r == Ok::<u128, ContractError>(idx),
            None => r == Err::<u128, ContractError>(ContractError::NotInitialized),
        },
{
    match storage.position_idx {
        Some(idx) => Ok(idx),
        None => Err(ContractError::NotInitialized),
    }
}

/// Stores the configuration, replacing an earlier one.
pub fn store_config(storage: &mut Ledger, config: &Config)
    ensures
        final(storage)@ == (LedgerView { config: Some(config@), ..old(storage)@ }),
        old(storage)@.consistent() ==> final(storage)@.consistent(),
{
    storage.config = Some(config.clone());
}

/// The configuration; an error while none has been stored.
pub fn read_config(storage: &Ledger) -> (r: Result<Config, ContractError>)
    ensures
        match r {
            Ok(config) => storage@.config == Some(config@),
            Err(e) => storage@.config.is_none() && e == ContractError::NotInitialized,
        },
{
    match &storage.config {
        Some(config) => Ok(config.clone()),
        None => Err(ContractError::NotInitialized),
    }
}

/// Registers a synthetic asset under its token's address, replacing an earlier entry.
pub fn store_asset_config(storage: &mut Ledger, asset_token: &str, asset_config: &AssetConfig)
    ensures
        final(storage)@ == (LedgerView {
            asset_configs: old(storage)@.asset_configs.insert(asset_token@, asset_config@),
            ..old(storage)@
        }),
        old(storage)@.consistent() ==> final(storage)@.consistent(),
{
    let key = asset_token.to_owned();
    storage.asset_configs.insert(key, asset_config.clone());
    assert(final(storage)@.asset_configs =~= old(storage)@.asset_configs.insert(
        asset_token@,
        asset_config@,
    ));
}

/// The fixed price of an asset, if it has one: the end price of a registered token that
/// has been migrated. A native coin and an unregistered token have none.
pub fn read_fixed_price(storage: &Ledger, asset_info: &AssetInfo) -> (r: Option<Decimal>)
    ensures
        r == storage@.fixed_price(asset_info@),
{
    match asset_info {
        AssetInfo::Token { contract_addr } => {
            match storage.asset_configs.get(contract_addr.as_str()) {
                Some(data) => data.end_price,
                None => None,
            }
        },
        AssetInfo::NativeToken { .. } => None,
    }
}

/// The registry entry of a synthetic token; `UnknownAsset` where there is none.
pub fn read_asset_config(storage: &Ledger, asset_token: &str) -> (r: Result<
    AssetConfig,
    ContractError,
>)
    ensures
        match r {
            Ok(config) => storage@.asset_configs.contains_key(asset_token@) && config@
                == storage@.asset_configs[asset_token@],
            Err(e) => !storage@.asset_configs.contains_key(asset_token@) && e
                == ContractError::Registry(RegistryError::UnknownAsset),
        },
{
    match storage.asset_configs.get(asset_token) {
        Some(data) => Ok(data.clone()),
        None => Err(ContractError::Registry(RegistryError::UnknownAsset)),
    }
}

/// Writes a new position under `idx` and enters it in the index of its owner and in
/// the index of its synthetic asset, all in one step. The ledger stays consistent where
/// the position carries `idx` as its identifier and `idx` is below the counter.
pub fn create_position(storage: &mut Ledger, idx: u128, position: &Position)
    ensures
        final(storage)@ == old(storage)@.with_new_position(idx, position@),
        old(storage)@.consistent() && position.idx == idx && (old(storage)@.position_idx is Some
            ==> idx < old(storage)@.position_idx->Some_0) ==> final(storage)@.consistent(),
{
    storage.positions.insert(idx, position.clone());
    storage.user_index.push((position.owner.clone(), idx));
    storage.asset_index.push((position.asset.info.clone(), idx));
    proof {
        lemma_index_entries_push(old(storage).user_index@, (position.owner, idx));
        lemma_index_entries_push(old(storage).asset_index@, (position.asset.info, idx));
        assert(final(storage)@.positions =~= old(storage)@.positions.insert(idx, position@));
    }
}

/// Writes `position` under `idx`, over whatever was there. The indices stay as they are,
/// so the ledger stays consistent where a position is replaced by one with the same
/// identifier, owner and synthetic asset.
pub fn store_position(storage: &mut Ledger, idx: u128, position: &Position)
    ensures
        final(storage)@ == old(storage)@.with_position(idx, position@),
        old(storage)@.consistent() && old(storage)@.positions.contains_key(idx) && position.idx
            == idx && position@.owner == old(storage)@.positions[idx].owner
            && position@.asset.info == old(storage)@.positions[idx].asset.info
            ==> final(storage)@.consistent(),
{
    storage.positions.insert(idx, position.clone());
    assert(final(storage)@.positions =~= old(storage)@.positions.insert(idx, position@));
}

/// The position stored under `idx`; `PositionNotFound` where there is none.
pub fn read_position(storage: &Ledger, idx: u128) -> (r: Result<Position, ContractError>)
    ensures
        match r {
            Ok(position) => storage@.positions.contains_key(idx) && position@
                == storage@.positions[idx],
            Err(e) => !storage@.positions.contains_key(idx) && e
                == ContractError::PositionNotFound,
        },
{
    match storage.positions.get(&idx) {
        Some(position) => Ok(position.clone()),
        None => Err(ContractError::PositionNotFound),
    }
}

/// Whether the index by owner holds `idx` under `owner`.
pub fn is_indexed_by_user(storage: &Ledger, owner: &String, idx: u128) -> (b: bool)
    ensures
        b == storage@.user_index.contains((owner@, idx)),
{
    index_holds(&storage.user_index, owner, idx)
}

/// Whether the index by synthetic asset holds `idx` under `asset_info`.
pub fn is_indexed_by_asset(storage: &Ledger, asset_info: &AssetInfo, idx: u128) -> (b: bool)
    ensures
        b == storage@.asset_index.contains((asset_info@, idx)),
{
    index_holds(&storage.asset_index, asset_info, idx)
}

} // verus!
