//! A verified pot ledger: splits an incoming token deposit between two
//! beneficiary accounts and lets each beneficiary withdraw its accumulated
//! balance, minus a fixed one-percent fee retained by the contract.

pub mod contract;
pub mod decimal;
pub mod error;
pub mod msg;
pub mod laws;
pub mod state;
