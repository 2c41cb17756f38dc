//! Errors surfaced by the pot ledger. Every error aborts the whole operation:
//! no state change made by a failing operation is ever kept.

use vstd::prelude::*;

verus! {

/// The ways a ledger operation can be rejected.
#[derive(Clone, Copy, Debug, PartialEq, Eq)]
pub enum ContractError {
    /// A deposit notification did not originate from the recognized token source.
    WrongToken,
    /// A deposit carried a zero amount.
    NoAmount,
    /// A withdrawal referenced an account with no pot.
    PotNotFound,
    /// A withdrawal amount exceeds the pot's collected balance.
    WrongAmount,
    /// A withdrawal target mismatch: the stored target differs from the
    /// requester. Unreachable under the ledger's own lookup scheme, kept as
    /// defense-in-depth should the key scheme ever change.
    WrongAddress,
}

} // verus!
