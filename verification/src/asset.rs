//! Assets: a native balance or a token-contract balance, told apart by a tag.

use vstd::prelude::*;

verus! {

/// Which asset is meant: a token, by its contract's address, or a native coin, by its
/// denomination.
#[derive(Debug, PartialEq, Eq)]
pub enum AssetInfo {
    Token { contract_addr: String },
    NativeToken { denom: String },
}

/// The model of an [`AssetInfo`]: the tag and the characters of its name.
pub enum AssetInfoView {
    Token { contract_addr: Seq<char> },
    NativeToken { denom: Seq<char> },
}

/// An amount of one asset.
#[derive(Debug, PartialEq, Eq)]
pub struct Asset {
    pub info: AssetInfo,
    pub amount: u128,
}

/// The model of an [`Asset`].
pub struct AssetView {
    pub info: AssetInfoView,
    pub amount: u128,
}

impl View for AssetInfo {
    type V = AssetInfoView;

    open spec fn view(&self) -> AssetInfoView {
        match *self {
            AssetInfo::Token { contract_addr } => AssetInfoView::Token {
                contract_addr: contract_addr@,
            },
            AssetInfo::NativeToken { denom } => AssetInfoView::NativeToken { denom: denom@ },
        }
    }
}

impl View for Asset {
    type V = AssetView;

    open spec fn view(&self) -> AssetView {
        AssetView { info: self.info@, amount: self.amount }
    }
}

impl Clone for AssetInfo {
    fn clone(&self) -> (r: Self)
        ensures
            r == *self,
    {
        match self {
            AssetInfo::Token { contract_addr } => AssetInfo::Token {
                contract_addr: contract_addr.clone(),
            },
            AssetInfo::NativeToken { denom } => AssetInfo::NativeToken { denom: denom.clone() },
        }
    }
}

impl Clone for Asset {
    fn clone(&self) -> (r: Self)
        ensures
            r == *self,
    {
        Asset { info: self.info.clone(), amount: self.amount }
    }
}

impl AssetInfo {
    /// Whether both name the same asset: the same tag and the same name.
    pub fn equal(&self, other: &AssetInfo) -> (b: bool)
        ensures
            b == (self@ == other@),
    {
        match self {
            AssetInfo::Token { contract_addr } => match other {
                AssetInfo::Token { contract_addr: other_addr } => {
                    let same = *contract_addr == *other_addr;
                    same
                },
                AssetInfo::NativeToken { .. } => false,
            },
            AssetInfo::NativeToken { denom } => match other {
                AssetInfo::Token { .. } => false,
                AssetInfo::NativeToken { denom: other_denom } => {
                    let same = *denom == *other_denom;
                    same
                },
            },
        }
    }

    /// Whether this is a native coin.
    pub fn is_native_token(&self) -> (b: bool)
        ensures
            b == (self@ is NativeToken),
    {
        match self {
            AssetInfo::Token { .. } => false,
            AssetInfo::NativeToken { .. } => true,
        }
    }
}

} // verus!
