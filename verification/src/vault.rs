//! The vault record, the requests that resolve it, and the rules that decide
//! whether a request may go ahead.

use vstd::prelude::*;
use crate::address::Address;
use crate::custody::{Transfer, TransferOutcome};
use crate::error::VaultError;
use crate::status::VaultStatus;

verus! {

/// Number of bytes in a milestone commitment.
pub const MILESTONE_HASH_LEN: usize = 32;

/// One escrow agreement: an amount locked by a creator until it is paid to
/// one of two destinations or returned.
///
/// Nothing but `status` changes after creation.
#[derive(Clone, Copy, Debug, PartialEq, Eq)]
pub struct ProductivityVault {
    /// The account that funded the vault. Only it may cancel.
    pub creator: Address,
    /// The locked quantity.
    pub amount: i128,
    /// Start of the window, in seconds.
    pub start_timestamp: u64,
    /// End of the window, in seconds. Validation is open strictly before it.
    pub end_timestamp: u64,
    /// Commitment to the milestone. It identifies the condition and is never
    /// evaluated.
    pub milestone_hash: [u8; MILESTONE_HASH_LEN],
    /// The account that may validate the milestone. Without one the vault
    /// cannot be validated.
    pub verifier: Option<Address>,
    /// Receives the amount when the vault completes.
    pub success_destination: Address,
    /// Receives the amount when the vault fails.
    pub failure_destination: Address,
    /// Where the vault stands in its lifecycle.
    pub status: VaultStatus,
}

/// A request to take a vault out of the active state, with what the rules
/// need to know about the call.
#[derive(Clone, Copy, Debug, PartialEq, Eq)]
pub enum Resolution {
    /// `caller` attests at time `now` that the milestone was met.
    Validate { caller: Address, now: u64 },
    /// Pay the success destination. Anyone may ask.
    Release,
    /// Pay the failure destination at time `now`. Anyone may ask.
    Redirect { now: u64 },
    /// `caller` takes the funds back.
    Cancel { caller: Address },
}

impl Resolution {
    /// The state in which a vault ends when this request goes through.
    pub open spec fn outcome(self) -> VaultStatus {
        match self {
            Resolution::Validate { .. } | Resolution::Release => VaultStatus::Completed,
            Resolution::Redirect { .. } => VaultStatus::Failed,
            Resolution::Cancel { .. } => VaultStatus::Cancelled,
        }
    }

    /// The state in which a vault ends when this request goes through.
    pub fn status_after(&self) -> (r: VaultStatus)
        ensures
            r == self.outcome(),
            r.terminal(),
    {
        match self {
            Resolution::Validate { .. } => VaultStatus::Completed,
            Resolution::Release => VaultStatus::Completed,
            Resolution::Redirect { .. } => VaultStatus::Failed,
            Resolution::Cancel { .. } => VaultStatus::Cancelled,
        }
    }
}

/// Checks that `caller`, the identity that the calling context has proven,
/// is the identity `expected` that an operation asks for.
pub fn require_caller(caller: &Address, expected: &Address) -> (r: Result<(), VaultError>)
    ensures
        r == if *caller == *expected {
            Ok::<(), VaultError>(())
        } else {
            Err(VaultError::AuthorizationDenied)
        },
{
    if caller.same_as(expected) {
        Ok(())
    } else {
        Err(VaultError::AuthorizationDenied)
    }
}

/// Reads what the store holds under a vault id: the record, or `NotFound`
/// where no vault was ever issued under that id.
pub fn require_issued(stored: Option<ProductivityVault>) -> (r: Result<
    ProductivityVault,
    VaultError,
>)
    ensures
        r == match stored {
            Some(vault) => Ok::<ProductivityVault, VaultError>(vault),
            None => Err(VaultError::NotFound),
        },
{
    match stored {
        Some(vault) => Ok(vault),
        None => Err(VaultError::NotFound),
    }
}

impl ProductivityVault {
    /// The rules that the terms of every vault obey: a positive amount, a
    /// window that does not end before it starts, and two different
    /// destinations.
    pub open spec fn valid_terms(self) -> bool {
        &&& self.amount > 0
        &&& self.start_timestamp <= self.end_timestamp
        &&& self.success_destination != self.failure_destination
    }

    /// Why `caller` may not open a vault with these terms, if anything.
    ///
    /// The caller has to be the creator. That is looked at before the terms.
    pub open spec fn opening_refusal(self, caller: Address) -> Option<VaultError> {
        if caller != self.creator {
            Some(VaultError::AuthorizationDenied)
        } else if !self.valid_terms() {
            Some(VaultError::InvalidArgument)
        } else {
            None
        }
    }

    /// The debit that funds this vault: its amount, out of the creator's
    /// balance.
    pub open spec fn funding(self) -> Transfer {
        Transfer::Debit { from: self.creator, amount: self.amount }
    }

    /// Why a creation on behalf of `caller` does not record this vault when
    /// the ledger answers the funding debit with `debit`, if anything. A
    /// refusal by the rules comes before the ledger's answer.
    pub open spec fn creation_failure(self, caller: Address, debit: TransferOutcome) -> Option<
        VaultError,
    > {
        match self.opening_refusal(caller) {
            Some(e) => Some(e),
            None => self.funding().failure(debit),
        }
    }

    /// The account that `request` pays.
    pub open spec fn beneficiary(self, request: Resolution) -> Address {
        match request {
            Resolution::Validate { .. } | Resolution::Release => self.success_destination,
            Resolution::Redirect { .. } => self.failure_destination,
            Resolution::Cancel { .. } => self.creator,
        }
    }

    /// The credit that `request` calls for: the whole amount, to the
    /// account that the request pays.
    pub open spec fn payout(self, request: Resolution) -> Transfer {
        Transfer::Credit { to: self.beneficiary(request), amount: self.amount }
    }

    /// Why `request` may not go ahead on this vault, if anything.
    ///
    /// The state is looked at first, then the caller, then the time.
    ///
    /// - Validating is for the verifier alone, at any time before the end of
    ///   the window. A vault without verifier cannot be validated.
    /// - Releasing is open to anyone at any time.
    /// - Redirecting is open to anyone from the end of the window on.
    /// - Cancelling is for the creator alone, at any time. A validation that
    ///   went through has completed the vault, so it cannot be cancelled
    ///   any more.
    pub open spec fn refusal(self, request: Resolution) -> Option<VaultError> {
        if self.status.terminal() {
            Some(VaultError::InvalidState)
        } else {
            match request {
                Resolution::Validate { caller, now } => {
                    if self.verifier != Some(caller) {
                        Some(VaultError::AuthorizationDenied)
                    } else if now >= self.end_timestamp {
                        Some(VaultError::WindowClosed)
                    } else {
                        None
                    }
                },
                Resolution::Release => None,
                Resolution::Redirect { now } => {
                    if now < self.end_timestamp {
                        Some(VaultError::WindowStillOpen)
                    } else {
                        None
                    }
                },
                Resolution::Cancel { caller } => {
                    if caller != self.creator {
                        Some(VaultError::AuthorizationDenied)
                    } else {
                        None
                    }
                },
            }
        }
    }

    /// Why `request` does not resolve this vault when the ledger answers the
    /// payout with `credit`, if anything. A refusal by the rules comes
    /// before the ledger's answer.
    pub open spec fn resolution_failure(
        self,
        request: Resolution,
        credit: TransferOutcome,
    ) -> Option<VaultError> {
        match self.refusal(request) {
            Some(e) => Some(e),
            None => self.payout(request).failure(credit),
        }
    }

    /// This vault in the state that `request` leads to.
    pub open spec fn resolved(self, request: Resolution) -> ProductivityVault {
        ProductivityVault { status: request.outcome(), ..self }
    }

    /// Checks the terms of a new vault on behalf of `caller` and builds its
    /// record, in the active state.
    pub fn open(
        caller: &Address,
        creator: Address,
        amount: i128,
        start_timestamp: u64,
        end_timestamp: u64,
        milestone_hash: [u8; MILESTONE_HASH_LEN],
        verifier: Option<Address>,
        success_destination: Address,
        failure_destination: Address,
    ) -> (r: Result<ProductivityVault, VaultError>)
        ensures
            ({
                let vault = ProductivityVault {
                    creator,
                    amount,
                    start_timestamp,
                    end_timestamp,
                    milestone_hash,
                    verifier,
                    success_destination,
                    failure_destination,
                    status: VaultStatus::Active,
                };
                r == match vault.opening_refusal(*caller) {
                    Some(e) => Err::<ProductivityVault, VaultError>(e),
                    None => Ok(vault),
                }
            }),
    {
        match require_caller(caller, &creator) {
            Ok(()) => {},
            Err(e) => { return Err(e); },
        }
        if amount <= 0 || start_timestamp > end_timestamp || success_destination.same_as(
            &failure_destination,
        ) {
            return Err(VaultError::InvalidArgument);
        }
        Ok(
            ProductivityVault {
                creator,
                amount,
                start_timestamp,
                end_timestamp,
                milestone_hash,
                verifier,
                success_destination,
                failure_destination,
                status: VaultStatus::Active,
            },
        )
    }

    /// The debit that has to succeed before this vault is recorded.
    pub fn funding_transfer(&self) -> (r: Transfer)
        ensures
            r == self.funding(),
    {
        Transfer::Debit { from: self.creator, amount: self.amount }
    }

    /// Decides whether `request` may go ahead, and if so names the credit
    /// that the ledger has to carry out before the vault is resolved.
    pub fn authorize(&self, request: &Resolution) -> (r: Result<Transfer, VaultError>)
        ensures
            r == match self.refusal(*request) {
                Some(e) => Err::<Transfer, VaultError>(e),
                None => Ok(self.payout(*request)),
            },
    {
        if self.status.is_terminal() {
            return Err(VaultError::InvalidState);
        }
        match request {
            Resolution::Validate { caller, now } => {
                let proven = match &self.verifier {
                    Some(verifier) => require_caller(caller, verifier),
                    None => Err(VaultError::AuthorizationDenied),
                };
                match proven {
                    Err(e) => Err(e),
                    Ok(()) => {
                        if *now >= self.end_timestamp {
                            Err(VaultError::WindowClosed)
                        } else {
                            Ok(
                                Transfer::Credit {
                                    to: self.success_destination,
                                    amount: self.amount,
                                },
                            )
                        }
                    },
                }
            },
            Resolution::Release => Ok(
                Transfer::Credit { to: self.success_destination, amount: self.amount },
            ),
            Resolution::Redirect { now } => {
                if *now < self.end_timestamp {
                    Err(VaultError::WindowStillOpen)
                } else {
                    Ok(Transfer::Credit { to: self.failure_destination, amount: self.amount })
                }
            },
            Resolution::Cancel { caller } => match require_caller(caller, &self.creator) {
                Err(e) => Err(e),
                Ok(()) => Ok(Transfer::Credit { to: self.creator, amount: self.amount }),
            },
        }
    }

    /// Resolves the vault as `request` asks, given the ledger's answer
    /// `credit` to the payout that [`ProductivityVault::authorize`] named.
    ///
    /// The result is the record in its terminal state. Nothing is resolved
    /// when the rules refuse the request or when the funds did not move.
    pub fn resolve(&self, request: &Resolution, credit: TransferOutcome) -> (r: Result<
        ProductivityVault,
        VaultError,
    >)
        ensures
            r == match self.resolution_failure(*request, credit) {
                Some(e) => Err::<ProductivityVault, VaultError>(e),
                None => Ok(self.resolved(*request)),
            },
    {
        let payout = match self.authorize(request) {
            Ok(t) => t,
            Err(e) => { return Err(e); },
        };
        match payout.settle(credit) {
            Ok(()) => {},
            Err(e) => { return Err(e); },
        }
        Ok(
            ProductivityVault {
                creator: self.creator,
                amount: self.amount,
                start_timestamp: self.start_timestamp,
                end_timestamp: self.end_timestamp,
                milestone_hash: self.milestone_hash,
                verifier: self.verifier,
                success_destination: self.success_destination,
                failure_destination: self.failure_destination,
                status: request.status_after(),
            },
        )
    }
}

} // verus!
