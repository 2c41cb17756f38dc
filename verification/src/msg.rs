//! The instruction surface of the pot ledger, abstracted from the wire
//! encoding: the instantiate, execute and query messages, and the values the
//! ledger hands back.

use vstd::prelude::*;
use crate::state::{Config, ContractFees};

verus! {

/// Bootstraps the contract: the optional administrative owner identifier.
/// When absent, the instantiating caller becomes the owner.
#[derive(Clone, Debug, PartialEq, Eq)]
pub struct InstantiateMsg {
    pub owner: Option<String>,
}

/// The payload a depositor wraps inside its token transfer.
#[derive(Clone, Copy, Debug, PartialEq, Eq)]
pub enum ReceiveMsg {
    /// Send directs the deposit to a pot pair under an identifier.
    Send { id: u64 },
}

/// A deposit notification: a token transfer of `amount` arrived, sent by
/// `sender`, wrapping a `ReceiveMsg` payload.
#[derive(Clone, Debug, PartialEq, Eq)]
pub struct DepositNotification {
    pub sender: String,
    pub amount: u128,
    pub msg: ReceiveMsg,
}

/// The mutating instructions of the ledger.
#[derive(Clone, Debug, PartialEq, Eq)]
pub enum ExecuteMsg {
    CreatePot {
        /// The first account that will receive half of the deposit.
        target_addr_1: String,
        /// The second account that will receive half of the deposit.
        target_addr_2: String,
        receive_msg: DepositNotification,
    },
    WithdrawPot {
        /// The amount the caller wants to withdraw.
        amount: u128,
    },
}

/// The read instructions of the ledger. Reads never mutate state.
#[derive(Clone, Debug, PartialEq, Eq)]
pub enum QueryMsg {
    QueryOwner {},
    GetPot { addr: String },
    GetFees {},
}

/// The answer to `GetPot`: target account and collected amount, both in
/// their external (stringified) representation.
#[derive(Clone, Debug, PartialEq, Eq)]
pub struct PotResponse {
    /// The account entitled to withdraw this pot.
    pub target_addr: String,
    /// How much is collected for this pot, rendered in decimal.
    pub collected: String,
}

/// The outbound directive handed to the host's token-transfer collaborator:
/// move `amount` units of the token to `recipient`.
#[derive(Clone, Debug, PartialEq, Eq)]
pub struct TransferInstruction {
    pub recipient: String,
    pub amount: u128,
}

/// The answer to a query.
#[derive(Clone, Debug, PartialEq, Eq)]
pub enum QueryResponse {
    Owner(Config),
    Pot(PotResponse),
    Fees(ContractFees),
}

} // verus!
