//! The operations of the pot ledger: instantiation, deposit splitting,
//! withdrawal with the retained fee, and the read-only queries. Every
//! operation validates its inputs before mutating anything, so a rejected
//! operation leaves the state exactly as it was.

use vstd::prelude::*;
use crate::decimal::{dec_str_of, u128_to_decimal};
use crate::error::ContractError;
use crate::msg::{
    DepositNotification, ExecuteMsg, InstantiateMsg, PotResponse, QueryMsg, QueryResponse,
    TransferInstruction,
};
use crate::state::{save_pot, Config, ContractFees, Pot, PotStore};

verus! {

/// The recognized deposit source: only transfers arriving through this token
/// contract may create pots.
pub open spec fn spec_deposit_source() -> Seq<char> {
    "usei"@
}

fn deposit_source() -> (r: String)
    ensures
        r@ == spec_deposit_source(),
{
    String::from_str("usei")
}

/// Initialize the contract: the owner defaults to the instantiating caller
/// when the message names none, and the fee accumulator starts at zero.
pub fn instantiate(sender: String, msg: InstantiateMsg) -> (r: (Config, ContractFees))
    ensures
        r.0.owner@ == match msg.owner {
            Some(o) => o@,
            None => sender@,
        },
        r.1.collected == 0,
{
    let owner = match msg.owner {
        Some(o) => o,
        None => sender,
    };
    (Config { owner }, ContractFees { collected: 0 })
}

/// Split an incoming deposit into two pots of half the amount each (integer
/// floor division; the odd unit of an odd amount is not credited anywhere).
/// Only the recognized token source may trigger creation, and only with a
/// strictly positive amount; an existing pot at either target is overwritten,
/// its prior balance discarded.
pub fn execute_create_pot(
    pots: &mut PotStore,
    sender: &String,
    target_addr_1: String,
    target_addr_2: String,
    wrapped: DepositNotification,
) -> (r: Result<(), ContractError>)
    requires
        old(pots).wf(),
    ensures
        final(pots).wf(),
        r is Ok <==> sender@ == spec_deposit_source() && wrapped.amount > 0,
        r is Ok ==> final(pots)@ == old(pots)@.insert(target_addr_1@, wrapped.amount / 2).insert(
            target_addr_2@,
            wrapped.amount / 2,
        ),
        r is Err ==> final(pots)@ == old(pots)@,
        r == Err::<(), ContractError>(ContractError::WrongToken) <==> sender@
            != spec_deposit_source(),
        r == Err::<(), ContractError>(ContractError::NoAmount) <==> sender@
            == spec_deposit_source() && wrapped.amount == 0,
{
    let src = deposit_source();
    if !(*sender == src) {
        return Err(ContractError::WrongToken);
    }
    if wrapped.amount == 0 {
        return Err(ContractError::NoAmount);
    }
    let amount_for_each_pot = wrapped.amount / 2;
    let pot1 = Pot { target_addr: target_addr_1, collected: amount_for_each_pot };
    let pot2 = Pot { target_addr: target_addr_2, collected: amount_for_each_pot };
    save_pot(pots, &pot1, &pot2);
    Ok(())
}

/// Withdraw `amount` from the caller's own pot. A fee of one percent of the
/// amount, rounded down, is retained and added to the fee accumulator; the
/// remainder is directed to the caller through the returned transfer
/// instruction. Withdrawing the full balance deletes the pot; a partial
/// withdrawal leaves the rest in place.
pub fn execute_withdraw_pot(
    pots: &mut PotStore,
    fees: &mut ContractFees,
    sender: &String,
    amount: u128,
) -> (r: Result<TransferInstruction, ContractError>)
    requires
        old(pots).wf(),
        old(fees).collected + amount / 100 <= u128::MAX,
    ensures
        final(pots).wf(),
        r is Ok <==> old(pots)@.contains_key(sender@) && amount <= old(pots)@[sender@],
        final(fees).collected >= old(fees).collected,
        match r {
            Ok(instr) => {
                &&& instr.recipient@ == sender@
                &&& instr.amount == amount - amount / 100
                &&& final(fees).collected == old(fees).collected + amount / 100
                &&& final(pots)@ == if amount < old(pots)@[sender@] {
                    old(pots)@.insert(sender@, (old(pots)@[sender@] - amount) as u128)
                } else {
                    old(pots)@.remove(sender@)
                }
            },
            Err(e) => {
                &&& final(pots)@ == old(pots)@
                &&& *final(fees) == *old(fees)
                &&& (e == ContractError::PotNotFound <==> !old(pots)@.contains_key(sender@))
                &&& (e == ContractError::WrongAmount <==> old(pots)@.contains_key(sender@)
                    && amount > old(pots)@[sender@])
            },
        },
{
    let p = match pots.lookup(sender) {
        Some(p) => p,
        None => { return Err(ContractError::PotNotFound); },
    };
    if amount > p.collected {
        return Err(ContractError::WrongAmount);
    }
    let amount_fees = amount / 100;
    let amount_user = amount - amount_fees;
    // Defense-in-depth: the stored target must match the requester. Under the
    // ledger's own key scheme the lookup already guarantees this, so the
    // rejection below is unreachable; it is kept should the key scheme change.
    if !(p.target_addr == *sender) {
        return Err(ContractError::WrongAddress);
    }
    pots.remove(sender);
    if amount < p.collected {
        pots.insert(Pot { target_addr: p.target_addr, collected: p.collected - amount });
        proof {
            assert(old(pots)@.remove(sender@).insert(sender@, (p.collected - amount) as u128)
                =~= old(pots)@.insert(sender@, (p.collected - amount) as u128));
        }
    }
    fees.collected = fees.collected + amount_fees;
    Ok(TransferInstruction { recipient: sender.clone(), amount: amount_user })
}

/// Dispatch one mutating instruction from `sender`. Creation issues no
/// outbound transfer; a withdrawal returns the transfer instruction for the
/// paid-out amount.
pub fn execute(
    pots: &mut PotStore,
    fees: &mut ContractFees,
    sender: &String,
    msg: ExecuteMsg,
) -> (r: Result<Option<TransferInstruction>, ContractError>)
    requires
        old(pots).wf(),
        match msg {
            ExecuteMsg::WithdrawPot { amount } => old(fees).collected + amount / 100
                <= u128::MAX,
            _ => true,
        },
    ensures
        final(pots).wf(),
        final(fees).collected >= old(fees).collected,
        match msg {
            ExecuteMsg::CreatePot { target_addr_1, target_addr_2, receive_msg } => {
                &&& *final(fees) == *old(fees)
                &&& (r is Ok <==> sender@ == spec_deposit_source() && receive_msg.amount > 0)
                &&& match r {
                    Ok(o) => o is None && final(pots)@ == old(pots)@.insert(
                        target_addr_1@,
                        receive_msg.amount / 2,
                    ).insert(target_addr_2@, receive_msg.amount / 2),
                    Err(e) => {
                        &&& final(pots)@ == old(pots)@
                        &&& (e == ContractError::WrongToken <==> sender@
                            != spec_deposit_source())
                        &&& (e == ContractError::NoAmount <==> sender@ == spec_deposit_source()
                            && receive_msg.amount == 0)
                    },
                }
            },
            ExecuteMsg::WithdrawPot { amount } => {
                &&& (r is Ok <==> old(pots)@.contains_key(sender@) && amount <= old(
                    pots,
                )@[sender@])
                &&& match r {
                    Ok(o) => match o {
                        Some(instr) => {
                            &&& instr.recipient@ == sender@
                            &&& instr.amount == amount - amount / 100
                            &&& final(fees).collected == old(fees).collected + amount / 100
                            &&& final(pots)@ == if amount < old(pots)@[sender@] {
                                old(pots)@.insert(
                                    sender@,
                                    (old(pots)@[sender@] - amount) as u128,
                                )
                            } else {
                                old(pots)@.remove(sender@)
                            }
                        },
                        None => false,
                    },
                    Err(e) => {
                        &&& final(pots)@ == old(pots)@
                        &&& *final(fees) == *old(fees)
                        &&& (e == ContractError::PotNotFound <==> !old(pots)@.contains_key(
                            sender@,
                        ))
                        &&& (e == ContractError::WrongAmount <==> old(pots)@.contains_key(
                            sender@,
                        ) && amount > old(pots)@[sender@])
                    },
                }
            },
        },
{
    match msg {
        ExecuteMsg::CreatePot { target_addr_1, target_addr_2, receive_msg } => {
            match execute_create_pot(pots, sender, target_addr_1, target_addr_2, receive_msg) {
                Ok(()) => Ok(None),
                Err(e) => Err(e),
            }
        },
        ExecuteMsg::WithdrawPot { amount } => {
            match execute_withdraw_pot(pots, fees, sender, amount) {
                Ok(instr) => Ok(Some(instr)),
                Err(e) => Err(e),
            }
        },
    }
}

/// Read the fee accumulator.
pub fn query_fees(fees: &ContractFees) -> (r: ContractFees)
    ensures
        r == *fees,
{
    ContractFees { collected: fees.collected }
}

/// Read the administrative configuration.
pub fn query_owner(config: &Config) -> (r: Config)
    ensures
        r == *config,
{
    Config { owner: config.owner.clone() }
}

/// Read the pot recorded for `addr`, with target account and collected
/// amount both in their external, stringified representation.
pub fn query_pot(pots: &PotStore, addr: &String) -> (r: Result<PotResponse, ContractError>)
    requires
        pots.wf(),
    ensures
        match r {
            Ok(resp) => pots@.contains_key(addr@) && resp.target_addr@ == addr@
                && resp.collected@ == dec_str_of(pots@[addr@] as nat),
            Err(e) => e == ContractError::PotNotFound && !pots@.contains_key(addr@),
        },
{
    match pots.lookup(addr) {
        Some(p) => Ok(
            PotResponse { target_addr: p.target_addr, collected: u128_to_decimal(p.collected) },
        ),
        None => Err(ContractError::PotNotFound),
    }
}

/// Dispatch one read instruction. Reads never mutate state.
pub fn query(
    config: &Config,
    fees: &ContractFees,
    pots: &PotStore,
    msg: QueryMsg,
) -> (r: Result<QueryResponse, ContractError>)
    requires
        pots.wf(),
    ensures
        match msg {
            QueryMsg::QueryOwner {} => match r {
                Ok(QueryResponse::Owner(c)) => c == *config,
                _ => false,
            },
            QueryMsg::GetFees {} => match r {
                Ok(QueryResponse::Fees(f)) => f == *fees,
                _ => false,
            },
            QueryMsg::GetPot { addr } => match r {
                Ok(QueryResponse::Pot(p)) => pots@.contains_key(addr@) && p.target_addr@ == addr@
                    && p.collected@ == dec_str_of(pots@[addr@] as nat),
                Err(e) => e == ContractError::PotNotFound && !pots@.contains_key(addr@),
                _ => false,
            },
        },
{
    match msg {
        QueryMsg::QueryOwner {} => Ok(QueryResponse::Owner(query_owner(config))),
        QueryMsg::GetPot { addr } => match query_pot(pots, &addr) {
            Ok(p) => Ok(QueryResponse::Pot(p)),
            Err(e) => Err(e),
        },
        QueryMsg::GetFees {} => Ok(QueryResponse::Fees(query_fees(fees))),
    }
}

} // verus!
