use crate::config::Mutation;
use crate::config::Transmuter;
use crate::config::VaultRequirement;
use crate::error::ErrorCode;
use vstd::prelude::*;

verus! {

/// What the external bank registry reports about one vault when queried.
/// The core never changes vault contents itself: it reads a snapshot like
/// this one and decides; locking and unlocking are carried out by the
/// registry on the core's behalf.
#[derive(Clone, Copy, Debug, PartialEq, Eq, Structural)]
pub struct VaultContents {
    /// Number of gems deposited in the vault.
    pub gem_count: u64,
    /// Sum of rarity points over the deposited gems.
    pub rarity_points: u64,
    /// The bank registry this vault belongs to.
    pub owning_bank: u64,
    /// Whether the registry currently refuses withdrawals from the vault.
    pub locked: bool,
}

/// What checking one vault against its slot's requirement yields, in the
/// order the checks run: the vault must belong to the bank registered for
/// the slot, then hold enough gems, then enough rarity points.
pub open spec fn vault_check_result(
    req: VaultRequirement,
    expected_bank: u64,
    v: VaultContents,
) -> Result<(), ErrorCode> {
    if v.owning_bank != expected_bank {
        Err(ErrorCode::VaultDoesNotBelongToBank)
    } else if v.gem_count < req.gems {
        Err(ErrorCode::InsufficientVaultGems)
    } else if v.rarity_points < req.rarity_points {
        Err(ErrorCode::InsufficientVaultRarityPoints)
    } else {
        Ok(())
    }
}

/// Validation: holds a queried vault against the requirement of the slot it
/// was bound to, rejecting a vault of the wrong bank before looking at its
/// contents.
pub fn check_vault(req: &VaultRequirement, expected_bank: u64, v: &VaultContents) -> (r: Result<
    (),
    ErrorCode,
>)
    ensures
        r == vault_check_result(*req, expected_bank, *v),
{
    if v.owning_bank != expected_bank {
        Err(ErrorCode::VaultDoesNotBelongToBank)
    } else if v.gem_count < req.gems {
        Err(ErrorCode::InsufficientVaultGems)
    } else if v.rarity_points < req.rarity_points {
        Err(ErrorCode::InsufficientVaultRarityPoints)
    } else {
        Ok(())
    }
}

/// What checking all three vaults of a receipt yields: slot A's vault first,
/// then slot B's, then slot C's, each against its own requirement and bank.
pub open spec fn all_vaults_check_result(
    transmuter: Transmuter,
    m: Mutation,
    a: VaultContents,
    b: VaultContents,
    c: VaultContents,
) -> Result<(), ErrorCode> {
    if vault_check_result(m.req_a, transmuter.bank_a, a) is Err {
        vault_check_result(m.req_a, transmuter.bank_a, a)
    } else if vault_check_result(m.req_b, transmuter.bank_b, b) is Err {
        vault_check_result(m.req_b, transmuter.bank_b, b)
    } else if vault_check_result(m.req_c, transmuter.bank_c, c) is Err {
        vault_check_result(m.req_c, transmuter.bank_c, c)
    } else {
        Ok(())
    }
}

/// Holds the three queried vaults against the recipe's per-slot requirements
/// and the transmuter's registered banks, slot A first.
pub fn check_all_vaults(
    transmuter: &Transmuter,
    m: &Mutation,
    a: &VaultContents,
    b: &VaultContents,
    c: &VaultContents,
) -> (r: Result<(), ErrorCode>)
    ensures
        r == all_vaults_check_result(*transmuter, *m, *a, *b, *c),
{
    check_vault(&m.req_a, transmuter.bank_a, a)?;
    check_vault(&m.req_b, transmuter.bank_b, b)?;
    check_vault(&m.req_c, transmuter.bank_c, c)?;
    Ok(())
}

} // verus!
