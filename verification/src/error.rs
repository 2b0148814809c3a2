use vstd::prelude::*;

verus! {

/// Every way an operation on a mutation or its execution receipt can fail.
///
/// All failures abort the whole operation with no partial state change: each
/// state-changing function either returns `Ok` having applied its full effect,
/// or returns one of these codes and leaves every value it borrowed unchanged.
#[derive(Clone, Copy, Debug, PartialEq, Eq, Structural)]
pub enum ErrorCode {
    /// Token index must be one of 1, 2, 3.
    InvalidTokenIndex,
    /// Bank account passed != bank account in config.
    BankDoesNotMatch,
    /// Mint account passed != mint account in config.
    MintDoesNotMatch,
    /// Minted mutations require a candy machine ID to be present.
    CandyMachineMissing,
    /// Arithmetic error (likely under/overflow).
    ArithmeticError,
    /// This mutation has exhausted all of its uses.
    NoMoreUsesLeft,
    /// Funding amount doesn't add up to uses * amount per use.
    IncorrectFunding,
    /// This taker's vault doesn't have enough gems.
    InsufficientVaultGems,
    /// This taker's vault doesn't have enough rarity points.
    InsufficientVaultRarityPoints,
    /// Passed vault doesn't belong to passed bank.
    VaultDoesNotBelongToBank,
    /// Mutation hasn't completed yet - need more time.
    MutationNotComplete,
    /// Reversals and abortions require all vaults to be set to lock.
    VaultsNotSetToLock,
    /// Abortion time specified must be <= mutation time.
    AbortTimeTooLarge,
    /// Abortion window has closed.
    AbortWindowClosed,
    /// This mutation doesn't support aborts.
    AbortNotSupported,
    /// Execution receipt account not initialized: this is the first call.
    ExecutionReceiptMissing,
    /// The receipt has already reached a terminal state (complete or aborted),
    /// or has already entered the pending flow; no rebinding or restart is
    /// allowed.
    MutationAlreadyComplete,
    /// A vault slot already holds a different vault than the one passed;
    /// bound slots are never reassigned.
    MutationAlreadyBound,
    /// Starting a mutation requires all three vault slots to be bound.
    VaultsNotBound,
}

} // verus!
