use crate::error::ErrorCode;
use vstd::prelude::*;

verus! {

/// One of the three bank slots a transmuter registers. Each slot names the
/// bank registry whose vault a taker must bind before a mutation can start.
#[derive(Clone, Copy, Debug, PartialEq, Eq, Structural)]
pub enum BankSlot {
    A,
    B,
    C,
}

/// Immutable configuration shared by a family of mutations: the three bank
/// registries takers deposit into, and the mint authority used when a recipe
/// mints an output token. Accounts are carried as plain addresses; the
/// registry that owns them is an external collaborator.
#[derive(Clone, Copy, Debug, PartialEq, Eq, Structural)]
pub struct Transmuter {
    /// Address of this transmuter record.
    pub key: u64,
    /// Bank registry behind slot A.
    pub bank_a: u64,
    /// Bank registry behind slot B.
    pub bank_b: u64,
    /// Bank registry behind slot C.
    pub bank_c: u64,
    /// Configured mint (candy machine) authority.
    pub mint: u64,
}

impl Transmuter {
    /// The slot a supplied bank account falls into: the first registered bank
    /// it equals, or none if it matches none of the three.
    pub open spec fn slot_of(self, bank: u64) -> Option<BankSlot> {
        if bank == self.bank_a {
            Some(BankSlot::A)
        } else if bank == self.bank_b {
            Some(BankSlot::B)
        } else if bank == self.bank_c {
            Some(BankSlot::C)
        } else {
            None
        }
    }

    /// Validation: the bank account passed with a call must match one of the
    /// three registered banks; any other account is rejected.
    pub fn match_bank(&self, bank: u64) -> (r: Result<BankSlot, ErrorCode>)
        ensures
            r is Ok <==> self.slot_of(bank) is Some,
            r is Ok ==> Some(r->Ok_0) == self.slot_of(bank),
            r is Err ==> r->Err_0 == ErrorCode::BankDoesNotMatch,
    {
        if bank == self.bank_a {
            Ok(BankSlot::A)
        } else if bank == self.bank_b {
            Ok(BankSlot::B)
        } else if bank == self.bank_c {
            Ok(BankSlot::C)
        } else {
            Err(ErrorCode::BankDoesNotMatch)
        }
    }

    /// Validation: a mint account passed with a call must be the configured
    /// mint authority.
    pub fn check_mint(&self, mint: u64) -> (r: Result<(), ErrorCode>)
        ensures
            r is Ok <==> mint == self.mint,
            r is Err ==> r->Err_0 == ErrorCode::MintDoesNotMatch,
    {
        if mint == self.mint {
            Ok(())
        } else {
            Err(ErrorCode::MintDoesNotMatch)
        }
    }
}

/// What one vault must hold before a mutation may start: a gem count and a
/// rarity-point sum, both measured by the external bank registry.
#[derive(Clone, Copy, Debug, PartialEq, Eq, Structural)]
pub struct VaultRequirement {
    /// Least number of gems the vault must hold.
    pub gems: u64,
    /// Least sum of rarity points the vault must hold.
    pub rarity_points: u64,
}

/// A mutation recipe. Everything here is immutable once published except
/// `uses_remaining`, which only ever decreases: by exactly one per successful
/// start, and never below zero.
#[derive(Clone, Copy, Debug, PartialEq, Eq, Structural)]
pub struct Mutation {
    /// Address of this mutation record.
    pub key: u64,
    /// Address of the owning transmuter.
    pub transmuter: u64,
    /// Deposit required in the slot-A vault.
    pub req_a: VaultRequirement,
    /// Deposit required in the slot-B vault.
    pub req_b: VaultRequirement,
    /// Deposit required in the slot-C vault.
    pub req_c: VaultRequirement,
    /// Seconds a taker must wait between starting and completing.
    pub duration: u64,
    /// Price of one use, in funding tokens.
    pub amount_per_use: u64,
    /// Number of uses the recipe was published with.
    pub total_uses: u64,
    /// Uses not yet consumed; at most `total_uses`.
    pub uses_remaining: u64,
    /// Seconds after the start during which an abort is allowed, or `None`
    /// when the recipe does not support aborts. A sound recipe keeps this at
    /// most `duration`; a violation surfaces as `AbortTimeTooLarge` on abort.
    pub abort_window: Option<u64>,
    /// Whether completing this mutation mints an output token, which needs a
    /// candy machine reference at execution time.
    pub requires_mint: bool,
}

impl Mutation {
    /// A recipe never has more uses remaining than it was published with.
    pub open spec fn wf(self) -> bool {
        self.uses_remaining <= self.total_uses
    }

    /// The exact funding a start must escrow: every use of the recipe paid for
    /// up front, as an unbounded integer.
    pub open spec fn spec_required_funding(self) -> int {
        self.total_uses * self.amount_per_use
    }

    /// Whether the required funding fits a `u64`; when it does not, funding
    /// checks fail with `ArithmeticError` rather than wrapping.
    pub open spec fn funding_fits(self) -> bool {
        self.spec_required_funding() <= u64::MAX
    }

    /// Funding ledger: the amount a taker owes to start this mutation,
    /// `total_uses * amount_per_use` under checked multiplication.
    pub fn required_funding(&self) -> (r: Result<u64, ErrorCode>)
        ensures
            self.funding_fits() ==> r is Ok && r->Ok_0 == self.spec_required_funding(),
            !self.funding_fits() ==> r == Err::<u64, ErrorCode>(ErrorCode::ArithmeticError),
    {
        match self.total_uses.checked_mul(self.amount_per_use) {
            Some(v) => Ok(v),
            None => Err(ErrorCode::ArithmeticError),
        }
    }

    /// Funding ledger: what a proposed deposit amounts to. Exactly the
    /// required funding is accepted, with no rounding in either direction;
    /// a recipe whose required funding overflows accepts no deposit at all.
    pub open spec fn funding_check_result(self, funding_amount: u64) -> Result<(), ErrorCode> {
        if !self.funding_fits() {
            Err(ErrorCode::ArithmeticError)
        } else if funding_amount != self.spec_required_funding() {
            Err(ErrorCode::IncorrectFunding)
        } else {
            Ok(())
        }
    }

    /// Validates a proposed funding deposit against the recipe.
    pub fn check_funding(&self, funding_amount: u64) -> (r: Result<(), ErrorCode>)
        ensures
            r == self.funding_check_result(funding_amount),
    {
        match self.required_funding() {
            Ok(required) => {
                if funding_amount == required {
                    Ok(())
                } else {
                    Err(ErrorCode::IncorrectFunding)
                }
            },
            Err(e) => Err(e),
        }
    }
}

} // verus!
