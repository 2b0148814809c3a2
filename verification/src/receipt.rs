use crate::config::BankSlot;
use crate::config::Mutation;
use crate::config::Transmuter;
use crate::error::ErrorCode;
use crate::vault::all_vaults_check_result;
use crate::vault::check_all_vaults;
use crate::vault::VaultContents;
use vstd::prelude::*;

verus! {

/// Seconds that have passed between the recorded start of a mutation and a
/// clock reading taken later. A reading from before the start counts as no
/// time passed.
pub open spec fn elapsed(start_time: u64, now: u64) -> int {
    if now >= start_time {
        now - start_time
    } else {
        0
    }
}

/// Lifecycle of an execution receipt. `NotStarted` and `VaultsBound` are the
/// binding phase; `Pending` is a started mutation waiting out its duration;
/// `Complete` and `Aborted` are terminal: no operation moves a receipt out of
/// them.
#[derive(Clone, Copy, Debug, PartialEq, Eq, Structural)]
pub enum ReceiptState {
    /// Created, but not all three vault slots are bound yet.
    NotStarted,
    /// All three vault slots are bound; the mutation may start.
    VaultsBound,
    /// Started: vaults are locked and the clock is running.
    Pending,
    /// Executed successfully. Terminal.
    Complete,
    /// Reversed within the abort window. Terminal.
    Aborted,
}

/// Per-(mutation, taker) progress record. Created lazily on the first vault
/// binding and advanced only by the operations below; every slot and flag
/// moves at most once along `NotStarted -> VaultsBound -> Pending ->
/// {Complete, Aborted}`.
#[derive(Clone, Copy, Debug, PartialEq, Eq, Structural)]
pub struct ExecutionReceipt {
    /// Address of the owning transmuter, stamped at creation.
    pub transmuter: u64,
    /// Address of the owning mutation, stamped at creation.
    pub mutation: u64,
    /// The taker this receipt tracks, stamped at creation.
    pub taker: u64,
    /// Vault bound for bank slot A, once bound never reassigned.
    pub vault_a: Option<u64>,
    /// Vault bound for bank slot B, once bound never reassigned.
    pub vault_b: Option<u64>,
    /// Vault bound for bank slot C, once bound never reassigned.
    pub vault_c: Option<u64>,
    /// Where the receipt stands in its lifecycle.
    pub state: ReceiptState,
    /// Clock value recorded when the mutation started; set once.
    pub start_time: u64,
    /// Funding escrowed when the mutation started; set once.
    pub funding_amount: u64,
}

impl ExecutionReceipt {
    /// The vault recorded in `slot`.
    pub open spec fn vault_in(self, slot: BankSlot) -> Option<u64> {
        match slot {
            BankSlot::A => self.vault_a,
            BankSlot::B => self.vault_b,
            BankSlot::C => self.vault_c,
        }
    }

    /// This receipt with `slot` bound to `vault` and everything else as it
    /// was.
    pub open spec fn with_slot(self, slot: BankSlot, vault: u64) -> ExecutionReceipt {
        match slot {
            BankSlot::A => ExecutionReceipt { vault_a: Some(vault), ..self },
            BankSlot::B => ExecutionReceipt { vault_b: Some(vault), ..self },
            BankSlot::C => ExecutionReceipt { vault_c: Some(vault), ..self },
        }
    }

    /// Whether all three vault slots are bound.
    pub open spec fn all_bound(self) -> bool {
        self.vault_a is Some && self.vault_b is Some && self.vault_c is Some
    }

    /// Whether the receipt can never move again.
    pub open spec fn is_terminal(self) -> bool {
        self.state is Complete || self.state is Aborted
    }

    /// The stored state tag agrees with the bound slots: a receipt reads
    /// `NotStarted` exactly as long as some slot is still empty, and every
    /// later state implies all three slots are bound. Constructors establish
    /// this and every operation preserves it.
    pub open spec fn wf(self) -> bool {
        &&& (self.state is NotStarted ==> !self.all_bound())
        &&& (!(self.state is NotStarted) ==> self.all_bound())
    }

    /// The defaults a fresh receipt for a (mutation, taker) pair is created
    /// with: no vaults bound, nothing started.
    pub open spec fn fresh(transmuter: u64, mutation: u64, taker: u64) -> ExecutionReceipt {
        ExecutionReceipt {
            transmuter,
            mutation,
            taker,
            vault_a: None,
            vault_b: None,
            vault_c: None,
            state: ReceiptState::NotStarted,
            start_time: 0,
            funding_amount: 0,
        }
    }

    /// A fresh receipt for a (mutation, taker) pair: no vaults bound, nothing
    /// started.
    pub fn new(transmuter: u64, mutation: u64, taker: u64) -> (r: ExecutionReceipt)
        ensures
            r == ExecutionReceipt::fresh(transmuter, mutation, taker),
            r.wf(),
    {
        ExecutionReceipt {
            transmuter,
            mutation,
            taker,
            vault_a: None,
            vault_b: None,
            vault_c: None,
            state: ReceiptState::NotStarted,
            start_time: 0,
            funding_amount: 0,
        }
    }

    /// Idempotent creation: the stored receipt for the pair if one exists,
    /// otherwise a fresh one stamped with the pair's identities. The platform
    /// hands in what it has stored under the pair's deterministic address;
    /// a second caller racing the first simply observes the already-created
    /// record.
    pub fn get_or_create(existing: Option<ExecutionReceipt>, transmuter: u64, mutation: u64, taker: u64) -> (r: ExecutionReceipt)
        ensures
            existing is Some ==> r == existing->Some_0,
            existing is None ==> r == ExecutionReceipt::fresh(transmuter, mutation, taker),
    {
        match existing {
            Some(receipt) => receipt,
            None => ExecutionReceipt::new(transmuter, mutation, taker),
        }
    }

    /// Whether the receipt is in the `Pending` state.
    pub fn is_pending(&self) -> (b: bool)
        ensures
            b == (self.state is Pending),
    {
        match self.state {
            ReceiptState::Pending => true,
            _ => false,
        }
    }

    /// Whether the receipt is in the terminal `Complete` state.
    pub fn is_complete(&self) -> (b: bool)
        ensures
            b == (self.state is Complete),
    {
        match self.state {
            ReceiptState::Complete => true,
            _ => false,
        }
    }

    /// Whether the stored state tag agrees with the bound slots; callers
    /// outside verified code use this to check `wf` before an operation.
    pub fn check_wf(&self) -> (b: bool)
        ensures
            b == self.wf(),
    {
        let bound = self.vault_a.is_some() && self.vault_b.is_some() && self.vault_c.is_some();
        match self.state {
            ReceiptState::NotStarted => !bound,
            _ => bound,
        }
    }

    /// What binding `vault` for `bank` does to this receipt, checks in the
    /// order they run: a receipt that entered the pending flow or a terminal
    /// state is frozen; the bank must be one of the transmuter's three; a
    /// slot already bound to the same vault is left exactly as it is, one
    /// bound to a different vault is never reassigned; otherwise the slot is
    /// recorded and the state tag moves to `VaultsBound` once all three
    /// slots are in.
    pub open spec fn bind_result(self, transmuter: Transmuter, bank: u64, vault: u64) -> Result<
        ExecutionReceipt,
        ErrorCode,
    > {
        if self.state is Pending || self.is_terminal() {
            Err(ErrorCode::MutationAlreadyComplete)
        } else {
            match transmuter.slot_of(bank) {
                None => Err(ErrorCode::BankDoesNotMatch),
                Some(slot) => match self.vault_in(slot) {
                    Some(bound) => if bound == vault {
                        Ok(self)
                    } else {
                        Err(ErrorCode::MutationAlreadyBound)
                    },
                    None => {
                        let updated = self.with_slot(slot, vault);
                        Ok(
                            ExecutionReceipt {
                                state: if updated.all_bound() {
                                    ReceiptState::VaultsBound
                                } else {
                                    ReceiptState::NotStarted
                                },
                                ..updated
                            },
                        )
                    },
                },
            }
        }
    }

    /// Records the vault serving the bank slot `bank` falls into.
    ///
    /// Creation of the vault itself is the external registry's job and is
    /// idempotent there; the caller requests it after this returns `Ok`. The
    /// platform looks the receipt up under the (mutation, taker) pair's
    /// deterministic address and checks that the mutation belongs to the
    /// transmuter, which is what the identity preconditions record.
    pub fn bind_vault(
        &mut self,
        transmuter: &Transmuter,
        mutation: &Mutation,
        taker: u64,
        bank: u64,
        vault: u64,
    ) -> (r: Result<(), ErrorCode>)
        requires
            old(self).wf(),
            mutation.transmuter == transmuter.key,
            old(self).transmuter == transmuter.key,
            old(self).mutation == mutation.key,
            old(self).taker == taker,
        ensures
            match old(self).bind_result(*transmuter, bank, vault) {
                Ok(bound) => r == Ok::<(), ErrorCode>(()) && *final(self) == bound,
                Err(e) => r == Err::<(), ErrorCode>(e) && *final(self) == *old(self),
            },
            final(self).wf(),
    {
        match self.state {
            ReceiptState::Pending | ReceiptState::Complete | ReceiptState::Aborted => {
                return Err(ErrorCode::MutationAlreadyComplete);
            },
            _ => {},
        }
        let slot = match transmuter.match_bank(bank) {
            Ok(slot) => slot,
            Err(e) => {
                return Err(e);
            },
        };
        let existing = match slot {
            BankSlot::A => self.vault_a,
            BankSlot::B => self.vault_b,
            BankSlot::C => self.vault_c,
        };
        match existing {
            Some(bound) => {
                if bound == vault {
                    Ok(())
                } else {
                    Err(ErrorCode::MutationAlreadyBound)
                }
            },
            None => {
                match slot {
                    BankSlot::A => {
                        self.vault_a = Some(vault);
                    },
                    BankSlot::B => {
                        self.vault_b = Some(vault);
                    },
                    BankSlot::C => {
                        self.vault_c = Some(vault);
                    },
                }
                if self.vault_a.is_some() && self.vault_b.is_some() && self.vault_c.is_some() {
                    self.state = ReceiptState::VaultsBound;
                } else {
                    self.state = ReceiptState::NotStarted;
                }
                Ok(())
            },
        }
    }

    /// What starting the mutation does, checks in the order they run: a
    /// receipt that already started or finished is frozen; all three slots
    /// must be bound; each vault must belong to its slot's bank and meet the
    /// recipe's thresholds; the recipe must have a use left; and the deposit
    /// must equal the required funding exactly. On success the receipt turns
    /// pending with the clock reading and deposit recorded, and the recipe
    /// loses exactly one use.
    pub open spec fn start_result(
        self,
        transmuter: Transmuter,
        m: Mutation,
        a: VaultContents,
        b: VaultContents,
        c: VaultContents,
        funding_amount: u64,
        now: u64,
    ) -> Result<(ExecutionReceipt, Mutation), ErrorCode> {
        if self.state is Pending || self.is_terminal() {
            Err(ErrorCode::MutationAlreadyComplete)
        } else if !self.all_bound() {
            Err(ErrorCode::VaultsNotBound)
        } else {
            match all_vaults_check_result(transmuter, m, a, b, c) {
                Err(e) => Err(e),
                Ok(()) => if m.uses_remaining == 0 {
                    Err(ErrorCode::NoMoreUsesLeft)
                } else {
                    match m.funding_check_result(funding_amount) {
                        Err(e) => Err(e),
                        Ok(()) => Ok(
                            (
                                ExecutionReceipt {
                                    state: ReceiptState::Pending,
                                    start_time: now,
                                    funding_amount,
                                    ..self
                                },
                                Mutation { uses_remaining: (m.uses_remaining - 1) as u64, ..m },
                            ),
                        ),
                    }
                },
            }
        }
    }

    /// Starts the mutation: validates the three queried vaults against the
    /// recipe, consumes one use, records the clock reading `now` and the
    /// escrowed deposit, and turns the receipt pending.
    ///
    /// On `Ok` the caller directs the registry to lock the three bound
    /// vaults and the ledger to escrow the deposit; on `Err` nothing
    /// changed and nothing is to be locked or escrowed.
    pub fn start_mutation(
        &mut self,
        transmuter: &Transmuter,
        mutation: &mut Mutation,
        vault_a: &VaultContents,
        vault_b: &VaultContents,
        vault_c: &VaultContents,
        funding_amount: u64,
        now: u64,
    ) -> (r: Result<(), ErrorCode>)
        requires
            old(self).wf(),
            old(mutation).wf(),
            old(mutation).transmuter == transmuter.key,
            old(self).transmuter == transmuter.key,
            old(self).mutation == old(mutation).key,
        ensures
            match old(self).start_result(
                *transmuter,
                *old(mutation),
                *vault_a,
                *vault_b,
                *vault_c,
                funding_amount,
                now,
            ) {
                Ok(started) => r == Ok::<(), ErrorCode>(()) && *final(self) == started.0
                    && *final(mutation) == started.1,
                Err(e) => r == Err::<(), ErrorCode>(e) && *final(self) == *old(self)
                    && *final(mutation) == *old(mutation),
            },
            final(self).wf(),
            final(mutation).wf(),
    {
        match self.state {
            ReceiptState::Pending | ReceiptState::Complete | ReceiptState::Aborted => {
                return Err(ErrorCode::MutationAlreadyComplete);
            },
            _ => {},
        }
        if !(self.vault_a.is_some() && self.vault_b.is_some() && self.vault_c.is_some()) {
            return Err(ErrorCode::VaultsNotBound);
        }
        check_all_vaults(transmuter, mutation, vault_a, vault_b, vault_c)?;
        if mutation.uses_remaining == 0 {
            return Err(ErrorCode::NoMoreUsesLeft);
        }
        mutation.check_funding(funding_amount)?;
        mutation.uses_remaining = mutation.uses_remaining - 1;
        self.state = ReceiptState::Pending;
        self.start_time = now;
        self.funding_amount = funding_amount;
        Ok(())
    }

    /// What executing the mutation does, checks in the order they run: a
    /// terminal receipt is frozen; a receipt that never started cannot
    /// complete; a candy machine passed along must be the configured mint
    /// authority; the recipe's full duration must have elapsed; and a recipe
    /// that mints needs a candy machine present. On success the receipt
    /// completes, and the flag says whether an output token is to be minted.
    pub open spec fn execute_result(
        self,
        transmuter: Transmuter,
        m: Mutation,
        candy_machine: Option<u64>,
        now: u64,
    ) -> Result<(ExecutionReceipt, bool), ErrorCode> {
        if self.is_terminal() {
            Err(ErrorCode::MutationAlreadyComplete)
        } else if !(self.state is Pending) {
            Err(ErrorCode::MutationNotComplete)
        } else if candy_machine is Some && candy_machine->Some_0 != transmuter.mint {
            Err(ErrorCode::MintDoesNotMatch)
        } else if elapsed(self.start_time, now) < m.duration {
            Err(ErrorCode::MutationNotComplete)
        } else if m.requires_mint && candy_machine is None {
            Err(ErrorCode::CandyMachineMissing)
        } else {
            Ok((ExecutionReceipt { state: ReceiptState::Complete, ..self }, m.requires_mint))
        }
    }

    /// Completes a pending mutation once the recipe's duration has elapsed
    /// at the clock reading `now`.
    ///
    /// On `Ok(true)` the caller dispatches exactly one mint request for the
    /// taker to the configured mint authority; on `Ok(false)` nothing is
    /// minted. Either way the caller has the registry release the vaults for
    /// payout or consumption. A second call finds the receipt terminal and
    /// fails rather than minting again.
    pub fn execute_mutation(
        &mut self,
        transmuter: &Transmuter,
        mutation: &Mutation,
        candy_machine: Option<u64>,
        now: u64,
    ) -> (r: Result<bool, ErrorCode>)
        requires
            old(self).wf(),
            mutation.transmuter == transmuter.key,
            old(self).transmuter == transmuter.key,
            old(self).mutation == mutation.key,
        ensures
            match old(self).execute_result(*transmuter, *mutation, candy_machine, now) {
                Ok(completed) => r == Ok::<bool, ErrorCode>(completed.1) && *final(self)
                    == completed.0,
                Err(e) => r == Err::<bool, ErrorCode>(e) && *final(self) == *old(self),
            },
            final(self).wf(),
    {
        match self.state {
            ReceiptState::Complete | ReceiptState::Aborted => {
                return Err(ErrorCode::MutationAlreadyComplete);
            },
            ReceiptState::NotStarted | ReceiptState::VaultsBound => {
                return Err(ErrorCode::MutationNotComplete);
            },
            ReceiptState::Pending => {},
        }
        if let Some(candy_machine_key) = candy_machine {
            transmuter.check_mint(candy_machine_key)?;
        }
        let elapsed_secs = if now >= self.start_time {
            now - self.start_time
        } else {
            0
        };
        if elapsed_secs < mutation.duration {
            return Err(ErrorCode::MutationNotComplete);
        }
        if mutation.requires_mint && candy_machine.is_none() {
            return Err(ErrorCode::CandyMachineMissing);
        }
        self.state = ReceiptState::Complete;
        Ok(mutation.requires_mint)
    }

    /// What aborting the mutation does, checks in the order they run: a
    /// terminal receipt is frozen; the recipe must support aborts at all; a
    /// receipt that never entered the pending flow, or any vault the
    /// registry does not report locked, blocks the reversal; an abort window
    /// configured longer than the duration is itself rejected; and the
    /// window must not have closed at the clock reading. On success the
    /// receipt is aborted; the use consumed at the start is not restored.
    pub open spec fn abort_result(
        self,
        m: Mutation,
        a: VaultContents,
        b: VaultContents,
        c: VaultContents,
        now: u64,
    ) -> Result<ExecutionReceipt, ErrorCode> {
        if self.is_terminal() {
            Err(ErrorCode::MutationAlreadyComplete)
        } else if m.abort_window is None {
            Err(ErrorCode::AbortNotSupported)
        } else if !(self.state is Pending) || !(a.locked && b.locked && c.locked) {
            Err(ErrorCode::VaultsNotSetToLock)
        } else if m.abort_window->Some_0 > m.duration {
            Err(ErrorCode::AbortTimeTooLarge)
        } else if elapsed(self.start_time, now) > m.abort_window->Some_0 {
            Err(ErrorCode::AbortWindowClosed)
        } else {
            Ok(ExecutionReceipt { state: ReceiptState::Aborted, ..self })
        }
    }

    /// Reverses a pending mutation within the recipe's abort window, judged
    /// against what the registry reports about the three vaults at the clock
    /// reading `now`.
    ///
    /// On `Ok` the caller has the registry unlock the vaults and return
    /// their contents to the taker; on `Err` nothing changed.
    pub fn abort(
        &mut self,
        mutation: &Mutation,
        vault_a: &VaultContents,
        vault_b: &VaultContents,
        vault_c: &VaultContents,
        now: u64,
    ) -> (r: Result<(), ErrorCode>)
        requires
            old(self).wf(),
            old(self).mutation == mutation.key,
        ensures
            match old(self).abort_result(*mutation, *vault_a, *vault_b, *vault_c, now) {
                Ok(aborted) => r == Ok::<(), ErrorCode>(()) && *final(self) == aborted,
                Err(e) => r == Err::<(), ErrorCode>(e) && *final(self) == *old(self),
            },
            final(self).wf(),
    {
        match self.state {
            ReceiptState::Complete | ReceiptState::Aborted => {
                return Err(ErrorCode::MutationAlreadyComplete);
            },
            _ => {},
        }
        let window = match mutation.abort_window {
            Some(window) => window,
            None => {
                return Err(ErrorCode::AbortNotSupported);
            },
        };
        let pending = match self.state {
            ReceiptState::Pending => true,
            _ => false,
        };
        if !pending || !(vault_a.locked && vault_b.locked && vault_c.locked) {
            return Err(ErrorCode::VaultsNotSetToLock);
        }
        if window > mutation.duration {
            return Err(ErrorCode::AbortTimeTooLarge);
        }
        let elapsed_secs = if now >= self.start_time {
            now - self.start_time
        } else {
            0
        };
        if elapsed_secs > window {
            return Err(ErrorCode::AbortWindowClosed);
        }
        self.state = ReceiptState::Aborted;
        Ok(())
    }
}

} // verus!
