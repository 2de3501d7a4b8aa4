//! The custody gateway: what the vault asks of the ledger, and how it reads
//! the ledger's answer.
//!
//! The ledger itself lives outside this crate. A [`Transfer`] names the
//! movement that the caller has to carry out there, and a
//! [`TransferOutcome`] is the answer that the caller brings back.

use vstd::prelude::*;
use crate::address::Address;
use crate::error::VaultError;

verus! {

/// A movement of funds between an account and the vault's custody.
#[derive(Clone, Copy, Debug, PartialEq, Eq)]
pub enum Transfer {
    /// Take `amount` from `from` into custody.
    Debit { from: Address, amount: i128 },
    /// Pay `amount` out of custody to `to`.
    Credit { to: Address, amount: i128 },
}

/// What the ledger answered to a requested transfer.
#[derive(Clone, Copy, Debug, PartialEq, Eq, Structural)]
pub enum TransferOutcome {
    /// The funds have moved.
    Settled,
    /// The paying account does not hold the amount.
    InsufficientFunds,
    /// The paying account did not approve the movement.
    Unauthorized,
    /// The ledger refused for any other reason.
    Rejected,
}

impl Transfer {
    /// The error that `outcome` stands for when it answers this transfer, or
    /// `None` when the funds have moved.
    ///
    /// Only a debit tells its caller why the ledger refused: a credit that
    /// did not go through is a failed transfer, whatever the reason.
    pub open spec fn failure(self, outcome: TransferOutcome) -> Option<VaultError> {
        match outcome {
            TransferOutcome::Settled => None,
            TransferOutcome::InsufficientFunds if self is Debit => Some(
                VaultError::InsufficientFunds,
            ),
            TransferOutcome::Unauthorized if self is Debit => Some(
                VaultError::AuthorizationDenied,
            ),
            _ => Some(VaultError::TransferFailed),
        }
    }

    /// Reads the ledger's answer to this transfer.
    pub fn settle(&self, outcome: TransferOutcome) -> (r: Result<(), VaultError>)
        ensures
            r == match self.failure(outcome) {
                Some(e) => Err::<(), VaultError>(e),
                None => Ok(()),
            },
    {
        match (outcome, self) {
            (TransferOutcome::Settled, _) => Ok(()),
            (TransferOutcome::InsufficientFunds, Transfer::Debit { .. }) => Err(
                VaultError::InsufficientFunds,
            ),
            (TransferOutcome::Unauthorized, Transfer::Debit { .. }) => Err(
                VaultError::AuthorizationDenied,
            ),
            _ => Err(VaultError::TransferFailed),
        }
    }
}

} // verus!
