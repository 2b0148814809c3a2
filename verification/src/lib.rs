//! Verified core of a three-vault escrow "mutation" flow.
//!
//! A taker binds one escrow vault per bank registry of a [`config::Transmuter`],
//! deposits gems into them, funds and starts a timed mutation against a
//! [`config::Mutation`] recipe, and then either completes the mutation after the
//! required duration has elapsed or aborts it within a bounded window.
//! Progress is tracked by a per-(mutation, taker) [`receipt::ExecutionReceipt`],
//! whose state machine and accounting invariants are what this crate proves.
//!
//! The vault registry that actually holds gems, the escrow ledger and the
//! token minter are external collaborators: the core only reads their reported
//! values (vault contents, the clock) and decides which transition, if any, is
//! taken.

pub mod config;
pub mod error;
pub mod laws;
pub mod receipt;
pub mod vault;

pub use config::BankSlot;
pub use config::Mutation;
pub use config::Transmuter;
pub use config::VaultRequirement;
pub use error::ErrorCode;
pub use receipt::ExecutionReceipt;
pub use receipt::ReceiptState;
pub use vault::VaultContents;
