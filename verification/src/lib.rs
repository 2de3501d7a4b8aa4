//! A milestone-conditioned escrow vault.
//!
//! A creator locks an amount of an asset for a time window. A verifier may
//! attest that the milestone was met, which sends the amount to the success
//! destination; once the window has closed anyone may send it to the failure
//! destination; the creator may cancel while the vault is still active. Every
//! vault leaves the active state at most once.
//!
//! The ledger that moves balances, the proof of who is calling and the clock
//! are not part of this crate: their answers are handed to it as plain values.
//! An operation that pays out is made in two steps, so that the funds move
//! before the vault is marked as resolved and never the other way round.
//! First `authorize` says whether the request may go ahead and names the
//! transfer to make. The caller has the ledger make it. Then the operation
//! itself takes the ledger's answer, looks at the rules once more, and
//! resolves the vault only if the funds have moved.

pub mod address;
pub mod contract;
pub mod custody;
pub mod error;
pub mod event;
pub mod status;
pub mod theorems;
pub mod vault;

pub use crate::address::Address;
pub use crate::contract::{ContractState, DataKey, DisciplrVault};
pub use crate::custody::{Transfer, TransferOutcome};
pub use crate::error::VaultError;
pub use crate::event::VaultEvent;
pub use crate::status::VaultStatus;
pub use crate::vault::{ProductivityVault, Resolution};
