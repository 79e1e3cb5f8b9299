//! Solvency engine of a collateralized-debt-position ledger.
//!
//! A user locks collateral of one asset and mints units of a synthetic asset
//! against it. Every operation that changes a position is a function of the
//! ledger, the caller's inputs and the oracle quotes, and is verified against
//! a description of its outcome over the ledger's view.

pub mod asserts;
pub mod asset;
pub mod contract;
pub mod error;
pub mod laws;
pub mod math;
pub mod msg;
pub mod positions;
pub mod querier;
pub mod response;
pub mod solvency;
pub mod state;
