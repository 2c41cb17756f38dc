//! Ledger-wide laws, stated once and proved once. The contracts of the
//! operations in `contract` pin each single step; the laws here state what
//! follows for the amounts involved and for chains of steps.

use vstd::prelude::*;

verus! {

/// A deposit split in half never credits more than was deposited: each pot
/// receives exactly half the amount rounded down, so the two credits
/// together never exceed the deposit and fall short of it by at most one
/// unit, the untracked remainder of an odd amount.
pub proof fn lemma_split_within_deposit(amount: u128)
    ensures
        2 * ((amount / 2) as int) <= amount as int,
        amount as int - 2 * ((amount / 2) as int) <= 1,
{
}

/// A successful withdrawal of `amount` from a pot holding `collected`
/// conserves funds: what leaves the pot is exactly the payout handed to the
/// beneficiary plus the fee retained in the accumulator.
pub proof fn lemma_withdraw_conserves(collected: u128, amount: u128)
    requires
        amount <= collected,
    ensures
        (collected - amount) + (amount - amount / 100) + amount / 100 == collected,
        amount / 100 <= amount,
{
}

proof fn lemma_chain_step(trace: Seq<u128>, i: int, j: int)
    requires
        forall|k: int| 0 <= k && k + 1 < trace.len() ==> #[trigger] trace[k] <= trace[k + 1],
        0 <= i <= j < trace.len(),
    ensures
        trace[i] <= trace[j],
    decreases j - i,
{
    if i < j {
        lemma_chain_step(trace, i, j - 1);
        assert(trace[j - 1] <= trace[j]);
    }
}

/// The fee accumulator is monotonically non-decreasing across any sequence
/// of operations: each operation's contract gives a fee value at least the
/// one before it, and along any chain of such steps no later value is below
/// an earlier one.
pub proof fn lemma_fees_monotonic(trace: Seq<u128>)
    requires
        forall|k: int| 0 <= k && k + 1 < trace.len() ==> #[trigger] trace[k] <= trace[k + 1],
    ensures
        forall|i: int, j: int| 0 <= i <= j < trace.len() ==> trace[i] <= trace[j],
{
    assert forall|i: int, j: int| 0 <= i <= j < trace.len() implies trace[i] <= trace[j] by {
        lemma_chain_step(trace, i, j);
    }
}

} // verus!
