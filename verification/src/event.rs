//! The notifications that the vault publishes.

use vstd::prelude::*;
use crate::vault::{ProductivityVault, Resolution};

verus! {

/// A notification for observers: one for each vault created and one for
/// each vault resolved.
#[derive(Clone, Copy, Debug, PartialEq, Eq)]
pub enum VaultEvent {
    /// A vault was created under `vault_id` with the record `vault`.
    VaultCreated { vault_id: u32, vault: ProductivityVault },
    /// The verifier validated the milestone of the vault.
    MilestoneValidated { vault_id: u32 },
    /// The funds of the vault were released to the success destination.
    FundsReleased { vault_id: u32 },
    /// The funds of the vault were redirected to the failure destination.
    FundsRedirected { vault_id: u32 },
    /// The creator cancelled the vault.
    VaultCancelled { vault_id: u32 },
}

impl VaultEvent {
    /// The vault that the event is about.
    pub open spec fn subject(self) -> u32 {
        match self {
            VaultEvent::VaultCreated { vault_id, .. } => vault_id,
            VaultEvent::MilestoneValidated { vault_id } => vault_id,
            VaultEvent::FundsReleased { vault_id } => vault_id,
            VaultEvent::FundsRedirected { vault_id } => vault_id,
            VaultEvent::VaultCancelled { vault_id } => vault_id,
        }
    }

    /// The name under which the event is published.
    pub open spec fn name(self) -> Seq<char> {
        match self {
            VaultEvent::VaultCreated { .. } => "vault_created"@,
            VaultEvent::MilestoneValidated { .. } => "milestone_validated"@,
            VaultEvent::FundsReleased { .. } => "funds_released"@,
            VaultEvent::FundsRedirected { .. } => "funds_redirected"@,
            VaultEvent::VaultCancelled { .. } => "vault_cancelled"@,
        }
    }

    /// The vault that the event is about.
    pub fn vault_id(&self) -> (r: u32)
        ensures
            r == self.subject(),
    {
        match self {
            VaultEvent::VaultCreated { vault_id, .. } => *vault_id,
            VaultEvent::MilestoneValidated { vault_id } => *vault_id,
            VaultEvent::FundsReleased { vault_id } => *vault_id,
            VaultEvent::FundsRedirected { vault_id } => *vault_id,
            VaultEvent::VaultCancelled { vault_id } => *vault_id,
        }
    }

    /// The name under which the event is published.
    pub fn topic(&self) -> (r: &'static str)
        ensures
            r@ == self.name(),
    {
        match self {
            VaultEvent::VaultCreated { .. } => "vault_created",
            VaultEvent::MilestoneValidated { .. } => "milestone_validated",
            VaultEvent::FundsReleased { .. } => "funds_released",
            VaultEvent::FundsRedirected { .. } => "funds_redirected",
            VaultEvent::VaultCancelled { .. } => "vault_cancelled",
        }
    }
}

impl Resolution {
    /// The event that tells of this request going through on `vault_id`.
    pub open spec fn notice(self, vault_id: u32) -> VaultEvent {
        match self {
            Resolution::Validate { .. } => VaultEvent::MilestoneValidated { vault_id },
            Resolution::Release => VaultEvent::FundsReleased { vault_id },
            Resolution::Redirect { .. } => VaultEvent::FundsRedirected { vault_id },
            Resolution::Cancel { .. } => VaultEvent::VaultCancelled { vault_id },
        }
    }

    /// The event to publish once this request has gone through on
    /// `vault_id`.
    pub fn event(&self, vault_id: u32) -> (r: VaultEvent)
        ensures
            r == self.notice(vault_id),
    {
        match self {
            Resolution::Validate { .. } => VaultEvent::MilestoneValidated { vault_id },
            Resolution::Release => VaultEvent::FundsReleased { vault_id },
            Resolution::Redirect { .. } => VaultEvent::FundsRedirected { vault_id },
            Resolution::Cancel { .. } => VaultEvent::VaultCancelled { vault_id },
        }
    }
}

} // verus!
