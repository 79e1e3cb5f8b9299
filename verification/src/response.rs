//! What an operation hands back: instructions for the token contracts, which the
//! library builds and never carries out, and attributes that describe what was done.

use crate::asset::{Asset, AssetView};
use vstd::prelude::*;

verus! {

/// The four operations on a position.
#[derive(Clone, Copy, Debug, PartialEq, Eq, Structural)]
pub enum Action {
    OpenPosition,
    Deposit,
    Withdraw,
    Mint,
}

/// An instruction to a token contract or to the bank.
#[derive(Debug, PartialEq, Eq)]
pub enum Instruction {
    /// The token contract `token` is to mint `amount` units to `recipient`.
    Mint { token: String, recipient: String, amount: u128 },
    /// `asset` is to be transferred to `recipient`.
    Transfer { recipient: String, asset: Asset },
}

/// The model of an [`Instruction`].
pub enum InstructionView {
    Mint { token: Seq<char>, recipient: Seq<char>, amount: u128 },
    Transfer { recipient: Seq<char>, asset: AssetView },
}

/// One attribute of the event that an operation emits.
#[derive(Debug, PartialEq, Eq)]
pub enum Attribute {
    Action(Action),
    PositionIdx(u128),
    MintAmount(Asset),
    CollateralAmount(Asset),
    DepositAmount(Asset),
    WithdrawAmount(Asset),
}

/// The model of an [`Attribute`].
pub enum AttributeView {
    Action(Action),
    PositionIdx(u128),
    MintAmount(AssetView),
    CollateralAmount(AssetView),
    DepositAmount(AssetView),
    WithdrawAmount(AssetView),
}

/// The instructions and the attributes of one successful operation, each in order.
#[derive(Debug, PartialEq, Eq)]
pub struct Response {
    pub messages: Vec<Instruction>,
    pub attributes: Vec<Attribute>,
}

/// The model of a [`Response`].
#[verifier::ext_equal]
pub struct ResponseView {
    pub messages: Seq<InstructionView>,
    pub attributes: Seq<AttributeView>,
}

impl View for Instruction {
    type V = InstructionView;

    open spec fn view(&self) -> InstructionView {
        match *self {
            Instruction::Mint { token, recipient, amount } => InstructionView::Mint {
                token: token@,
                recipient: recipient@,
                amount,
            },
            Instruction::Transfer { recipient, asset } => InstructionView::Transfer {
                recipient: recipient@,
                asset: asset@,
            },
        }
    }
}

impl View for Attribute {
    type V = AttributeView;

    open spec fn view(&self) -> AttributeView {
        match *self {
            Attribute::Action(action) => AttributeView::Action(action),
            Attribute::PositionIdx(idx) => AttributeView::PositionIdx(idx),
            Attribute::MintAmount(asset) => AttributeView::MintAmount(asset@),
            Attribute::CollateralAmount(asset) => AttributeView::CollateralAmount(asset@),
            Attribute::DepositAmount(asset) => AttributeView::DepositAmount(asset@),
            Attribute::WithdrawAmount(asset) => AttributeView::WithdrawAmount(asset@),
        }
    }
}

impl View for Response {
    type V = ResponseView;

    open spec fn view(&self) -> ResponseView {
        ResponseView {
            messages: self.messages@.map_values(|m: Instruction| m@),
            attributes: self.attributes@.map_values(|a: Attribute| a@),
        }
    }
}

impl Response {
    /// A response with no instruction and no attribute.
    pub fn new() -> (r: Response)
        ensures
            r@ == (ResponseView { messages: Seq::empty(), attributes: Seq::empty() }),
    {
        let r = Response { messages: Vec::new(), attributes: Vec::new() };
        assert(r@.messages =~= Seq::empty());
        assert(r@.attributes =~= Seq::empty());
        r
    }

    /// Appends an instruction.
    pub fn add_message(&mut self, message: Instruction)
        ensures
            final(self)@ == (ResponseView {
                messages: old(self)@.messages.push(message@),
                ..old(self)@
            }),
    {
        self.messages.push(message);
        assert(final(self)@.messages =~= old(self)@.messages.push(message@));
    }

    /// Appends an attribute.
    pub fn add_attribute(&mut self, attribute: Attribute)
        ensures
            final(self)@ == (ResponseView {
                attributes: old(self)@.attributes.push(attribute@),
                ..old(self)@
            }),
    {
        self.attributes.push(attribute);
        assert(final(self)@.attributes =~= old(self)@.attributes.push(attribute@));
    }
}

} // verus!
