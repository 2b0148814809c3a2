//! The guarantees the state machine lives by, each proved from the
//! transition functions the operations' contracts are stated over. The
//! operations themselves promise only that they apply those transitions
//! exactly; everything here follows for every input.

use crate::config::BankSlot;
use crate::config::Mutation;
use crate::config::Transmuter;
use crate::error::ErrorCode;
use crate::receipt::elapsed;
use crate::receipt::ExecutionReceipt;
use crate::vault::all_vaults_check_result;
use crate::vault::VaultContents;
use vstd::prelude::*;

verus! {

/// A recipe's `uses_remaining` only ever decreases, by exactly one per
/// successful start, and `NoMoreUsesLeft` fires exactly when it stands at
/// zero while every earlier check passed. It cannot go below zero: a start
/// succeeds only from a count of at least one. Starting is the only
/// operation that touches the recipe at all; binding, executing and
/// aborting borrow it immutably.
pub proof fn lemma_start_consumes_exactly_one_use(
    receipt: ExecutionReceipt,
    transmuter: Transmuter,
    m: Mutation,
    a: VaultContents,
    b: VaultContents,
    c: VaultContents,
    funding_amount: u64,
    now: u64,
)
    ensures
        receipt.start_result(transmuter, m, a, b, c, funding_amount, now) matches Ok(started) ==> {
            &&& m.uses_remaining >= 1
            &&& started.1.uses_remaining == m.uses_remaining - 1
            &&& started.1 == (Mutation { uses_remaining: started.1.uses_remaining, ..m })
        },
        !(receipt.state is Pending) && !receipt.is_terminal() && receipt.all_bound()
            && all_vaults_check_result(transmuter, m, a, b, c) is Ok && m.uses_remaining == 0
            ==> receipt.start_result(transmuter, m, a, b, c, funding_amount, now) == Err::<
            (ExecutionReceipt, Mutation),
            ErrorCode,
        >(ErrorCode::NoMoreUsesLeft),
{
}

/// Rebinding an already-bound slot is idempotent with the same vault and
/// rejected with any other: while the receipt has not entered the pending
/// flow, binding the slot's recorded vault again returns the receipt exactly
/// as it was, and binding a different vault fails without touching it.
pub proof fn lemma_bind_rebind(
    receipt: ExecutionReceipt,
    transmuter: Transmuter,
    bank: u64,
    bound: u64,
    vault: u64,
)
    requires
        !(receipt.state is Pending),
        !receipt.is_terminal(),
        transmuter.slot_of(bank) is Some,
        receipt.vault_in(transmuter.slot_of(bank)->Some_0) == Some(bound),
    ensures
        vault == bound ==> receipt.bind_result(transmuter, bank, vault) == Ok::<
            ExecutionReceipt,
            ErrorCode,
        >(receipt),
        vault != bound ==> receipt.bind_result(transmuter, bank, vault) == Err::<
            ExecutionReceipt,
            ErrorCode,
        >(ErrorCode::MutationAlreadyBound),
{
}

/// Vault slots only ever fill: a successful bind leaves every already-bound
/// slot exactly as it was and writes at most the one empty slot its bank
/// falls into, and the identity stamps, start timestamp and recorded funding
/// never move during the binding phase.
pub proof fn lemma_bind_only_fills_one_slot(
    receipt: ExecutionReceipt,
    transmuter: Transmuter,
    bank: u64,
    vault: u64,
)
    ensures
        receipt.bind_result(transmuter, bank, vault) matches Ok(bound) ==> {
            &&& forall|slot: BankSlot| #![auto]
                bound.vault_in(slot) == receipt.vault_in(slot) || (receipt.vault_in(slot) is None
                    && Some(slot) == transmuter.slot_of(bank) && bound.vault_in(slot) == Some(
                    vault,
                ))
            &&& bound.transmuter == receipt.transmuter
            &&& bound.mutation == receipt.mutation
            &&& bound.taker == receipt.taker
            &&& bound.start_time == receipt.start_time
            &&& bound.funding_amount == receipt.funding_amount
        },
{
}

/// A start never succeeds on anything but the exact required funding:
/// every use of the recipe paid for at the per-use price, with no rounding,
/// and with the product free of overflow.
pub proof fn lemma_start_requires_exact_funding(
    receipt: ExecutionReceipt,
    transmuter: Transmuter,
    m: Mutation,
    a: VaultContents,
    b: VaultContents,
    c: VaultContents,
    funding_amount: u64,
    now: u64,
)
    ensures
        receipt.start_result(transmuter, m, a, b, c, funding_amount, now) is Ok ==> funding_amount
            == m.total_uses * m.amount_per_use,
{
}

/// An execution never completes the receipt before the recipe's full
/// duration has elapsed since the recorded start; when it does succeed, the
/// receipt it leaves is `Complete`.
pub proof fn lemma_execute_respects_duration(
    receipt: ExecutionReceipt,
    transmuter: Transmuter,
    m: Mutation,
    candy_machine: Option<u64>,
    now: u64,
)
    ensures
        elapsed(receipt.start_time, now) < m.duration ==> receipt.execute_result(
            transmuter,
            m,
            candy_machine,
            now,
        ) is Err,
        receipt.execute_result(transmuter, m, candy_machine, now) matches Ok(completed) ==> {
            &&& elapsed(receipt.start_time, now) >= m.duration
            &&& completed.0.state is Complete
        },
{
}

/// An abort never succeeds unless the receipt is pending, the registry
/// reports all three vaults locked, the recipe's abort window is sound and
/// still open at the clock reading, and the recipe supports aborts at all.
pub proof fn lemma_abort_needs_locked_vaults_and_open_window(
    receipt: ExecutionReceipt,
    m: Mutation,
    a: VaultContents,
    b: VaultContents,
    c: VaultContents,
    now: u64,
)
    ensures
        receipt.abort_result(m, a, b, c, now) matches Ok(aborted) ==> {
            &&& receipt.state is Pending
            &&& a.locked && b.locked && c.locked
            &&& m.abort_window is Some
            &&& m.abort_window->Some_0 <= m.duration
            &&& elapsed(receipt.start_time, now) <= m.abort_window->Some_0
            &&& aborted.state is Aborted
        },
{
}

/// Terminal receipts are frozen: once a receipt is `Complete` or `Aborted`,
/// every further bind, start, execute or abort fails with
/// `MutationAlreadyComplete`, whatever else is passed in.
pub proof fn lemma_terminal_receipt_is_frozen(
    receipt: ExecutionReceipt,
    transmuter: Transmuter,
    m: Mutation,
    a: VaultContents,
    b: VaultContents,
    c: VaultContents,
    candy_machine: Option<u64>,
    bank: u64,
    vault: u64,
    funding_amount: u64,
    now: u64,
)
    requires
        receipt.is_terminal(),
    ensures
        receipt.bind_result(transmuter, bank, vault) == Err::<ExecutionReceipt, ErrorCode>(
            ErrorCode::MutationAlreadyComplete,
        ),
        receipt.start_result(transmuter, m, a, b, c, funding_amount, now) == Err::<
            (ExecutionReceipt, Mutation),
            ErrorCode,
        >(ErrorCode::MutationAlreadyComplete),
        receipt.execute_result(transmuter, m, candy_machine, now) == Err::<
            (ExecutionReceipt, bool),
            ErrorCode,
        >(ErrorCode::MutationAlreadyComplete),
        receipt.abort_result(m, a, b, c, now) == Err::<ExecutionReceipt, ErrorCode>(
            ErrorCode::MutationAlreadyComplete,
        ),
{
}

} // verus!
