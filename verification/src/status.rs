//! The lifecycle states of a vault.

use vstd::prelude::*;

verus! {

/// Where a vault stands in its lifecycle.
///
/// `Active` is the only state that a vault can leave.
#[derive(Clone, Copy, Debug, PartialEq, Eq, Structural)]
pub enum VaultStatus {
    Active,
    Completed,
    Failed,
    Cancelled,
}

impl VaultStatus {
    /// A terminal state has no outgoing transition.
    pub open spec fn terminal(self) -> bool {
        self != VaultStatus::Active
    }

    /// Whether no further transition is possible from this state.
    pub fn is_terminal(&self) -> (r: bool)
        ensures
            r == self.terminal(),
    {
        match self {
            VaultStatus::Active => false,
            _ => true,
        }
    }
}

} // verus!
