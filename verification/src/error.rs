//! Why an operation was refused.

use vstd::prelude::*;

verus! {

/// The reason an operation on a vault did not take place.
///
/// A refused operation changes nothing.
#[derive(Clone, Copy, Debug, PartialEq, Eq, Structural)]
pub enum VaultError {
    /// The caller is not the identity that the operation asks for.
    AuthorizationDenied,
    /// No vault was ever issued under the given id.
    NotFound,
    /// The vault has already left the active state.
    InvalidState,
    /// The deadline has been reached, so the milestone can no longer be validated.
    WindowClosed,
    /// The deadline has not been reached, so the funds cannot be redirected yet.
    WindowStillOpen,
    /// The ledger rejected the movement of funds.
    TransferFailed,
    /// The terms of a new vault break a creation rule.
    InvalidArgument,
    /// The creator's balance does not cover the amount to lock.
    InsufficientFunds,
}

} // verus!
