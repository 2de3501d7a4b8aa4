//! The vault contract: the store of all vaults and the operations on it.

use vstd::prelude::*;
use crate::address::Address;
use crate::custody::{Transfer, TransferOutcome};
use crate::error::VaultError;
use crate::event::VaultEvent;
use crate::status::VaultStatus;
use crate::vault::{require_issued, ProductivityVault, Resolution, MILESTONE_HASH_LEN};

verus! {

/// The keys of the persisted state: one slot for the id counter and one
/// record for each vault.
#[derive(Clone, Copy, Debug, PartialEq, Eq, Structural)]
pub enum DataKey {
    /// The id that the next vault gets.
    NextVaultId,
    /// The record of the vault with the given id.
    Vault(u32),
}

/// What the contract holds, as a mathematical value.
///
/// The vault with id `i` is `vaults[i]`, so the id that the next vault gets
/// is the number of vaults. Records are never removed.
pub struct ContractState {
    /// The record of each vault, by id.
    pub vaults: Seq<ProductivityVault>,
    /// The events published and not yet taken, oldest first.
    pub events: Seq<VaultEvent>,
}

impl ContractState {
    /// The state before any vault was created.
    pub open spec fn empty() -> ContractState {
        ContractState { vaults: Seq::empty(), events: Seq::empty() }
    }

    /// The id that the next vault gets.
    pub open spec fn next_vault_id(self) -> nat {
        self.vaults.len()
    }

    /// Whether a vault was issued under `vault_id`.
    pub open spec fn issued(self, vault_id: u32) -> bool {
        vault_id < self.vaults.len()
    }

    /// The record of `vault_id`, if that id was issued.
    pub open spec fn vault(self, vault_id: u32) -> Option<ProductivityVault> {
        if self.issued(vault_id) {
            Some(self.vaults[vault_id as int])
        } else {
            None
        }
    }

    /// Whether something is stored under `key`. The counter is first
    /// written by the first creation.
    pub open spec fn holds(self, key: DataKey) -> bool {
        match key {
            DataKey::NextVaultId => self.vaults.len() > 0,
            DataKey::Vault(vault_id) => self.issued(vault_id),
        }
    }

    /// Every id fits in 32 bits, and every record obeys the creation rules.
    pub open spec fn valid(self) -> bool {
        &&& self.vaults.len() <= u32::MAX
        &&& forall|i: int|
            0 <= i < self.vaults.len() ==> (#[trigger] self.vaults[i]).valid_terms()
    }

    /// The state once `vault` is recorded: it has the next id, and its
    /// creation is the newest event.
    pub open spec fn with_vault(self, vault: ProductivityVault) -> ContractState {
        ContractState {
            vaults: self.vaults.push(vault),
            events: self.events.push(
                VaultEvent::VaultCreated { vault_id: self.vaults.len() as u32, vault },
            ),
        }
    }

    /// What a creation of `vault` on behalf of `caller` returns when the
    /// ledger answers the funding debit with `debit`: the next id, unless
    /// the creation fails.
    pub open spec fn creation_result(
        self,
        caller: Address,
        vault: ProductivityVault,
        debit: TransferOutcome,
    ) -> Result<u32, VaultError> {
        match vault.creation_failure(caller, debit) {
            Some(e) => Err(e),
            None => Ok(self.vaults.len() as u32),
        }
    }

    /// The state after that creation. A creation that fails changes
    /// nothing.
    pub open spec fn after_creation(
        self,
        caller: Address,
        vault: ProductivityVault,
        debit: TransferOutcome,
    ) -> ContractState {
        if vault.creation_failure(caller, debit) is None {
            self.with_vault(vault)
        } else {
            self
        }
    }

    /// Why `request` may not go ahead on `vault_id`, if anything: the id was
    /// never issued, or the rules of the vault refuse.
    pub open spec fn refusal(self, vault_id: u32, request: Resolution) -> Option<VaultError> {
        match self.vault(vault_id) {
            None => Some(VaultError::NotFound),
            Some(vault) => vault.refusal(request),
        }
    }

    /// Why `request` does not resolve `vault_id` when the ledger answers the
    /// payout with `credit`, if anything.
    pub open spec fn resolution_failure(
        self,
        vault_id: u32,
        request: Resolution,
        credit: TransferOutcome,
    ) -> Option<VaultError> {
        match self.vault(vault_id) {
            None => Some(VaultError::NotFound),
            Some(vault) => vault.resolution_failure(request, credit),
        }
    }

    /// The state once `request` has gone through on `vault_id`: that record
    /// is in its terminal state, every other record is as before, and the
    /// resolution is the newest event.
    pub open spec fn with_resolution(self, vault_id: u32, request: Resolution) -> ContractState {
        ContractState {
            vaults: self.vaults.update(
                vault_id as int,
                self.vaults[vault_id as int].resolved(request),
            ),
            events: self.events.push(request.notice(vault_id)),
        }
    }

    /// What resolving `vault_id` as `request` asks returns when the ledger
    /// answers the payout with `credit`.
    pub open spec fn resolution_result(
        self,
        vault_id: u32,
        request: Resolution,
        credit: TransferOutcome,
    ) -> Result<(), VaultError> {
        match self.resolution_failure(vault_id, request, credit) {
            Some(e) => Err(e),
            None => Ok(()),
        }
    }

    /// The state after that resolution. A resolution that fails changes
    /// nothing.
    pub open spec fn after_resolution(
        self,
        vault_id: u32,
        request: Resolution,
        credit: TransferOutcome,
    ) -> ContractState {
        if self.resolution_failure(vault_id, request, credit) is None {
            self.with_resolution(vault_id, request)
        } else {
            self
        }
    }
}

/// The vault contract.
///
/// Ids are handed out in order, starting at 0. A record, once written,
/// stays for good and changes only by leaving the active state, once.
pub struct DisciplrVault {
    vaults: Vec<ProductivityVault>,
    events: Vec<VaultEvent>,
}

impl View for DisciplrVault {
    type V = ContractState;

    closed spec fn view(&self) -> ContractState {
        ContractState { vaults: self.vaults@, events: self.events@ }
    }
}

impl DisciplrVault {
    /// A contract that holds no vault yet.
    pub fn new() -> (r: DisciplrVault)
        ensures
            r@ == ContractState::empty(),
            r@.valid(),
    {
        DisciplrVault { vaults: Vec::new(), events: Vec::new() }
    }

    /// The id that the next vault gets.
    pub fn next_vault_id(&self) -> (r: u32)
        requires
            self@.valid(),
        ensures
            r == self@.next_vault_id(),
    {
        self.vaults.len() as u32
    }

    /// Whether something is stored under `key`.
    pub fn has(&self, key: &DataKey) -> (r: bool)
        ensures
            r == self@.holds(*key),
    {
        match key {
            DataKey::NextVaultId => self.vaults.len() > 0,
            DataKey::Vault(vault_id) => (*vault_id as usize) < self.vaults.len(),
        }
    }

    /// The current record of `vault_id`, or `None` if that id was never
    /// issued.
    pub fn get_vault_state(&self, vault_id: u32) -> (r: Option<ProductivityVault>)
        ensures
            r == self@.vault(vault_id),
    {
        let i = vault_id as usize;
        if i < self.vaults.len() {
            Some(self.vaults[i])
        } else {
            None
        }
    }

    /// The events published and not yet taken, oldest first.
    pub fn events(&self) -> (r: &Vec<VaultEvent>)
        ensures
            r@ == self@.events,
    {
        &self.events
    }

    /// Hands over the events published since they were last taken, oldest
    /// first, and forgets them. The vaults are as before.
    pub fn take_events(&mut self) -> (r: Vec<VaultEvent>)
        ensures
            r@ == old(self)@.events,
            final(self)@ == (ContractState { vaults: old(self)@.vaults, events: Seq::empty() }),
    {
        let mut taken: Vec<VaultEvent> = Vec::new();
        core::mem::swap(&mut self.events, &mut taken);
        taken
    }

    /// Creates a vault on behalf of `caller`, given the ledger's answer
    /// `debit` to the funding debit, and returns its id.
    ///
    /// The caller has to be the creator, the terms have to obey the creation
    /// rules, and the debit has to have settled. Otherwise nothing is
    /// written and no id is used up.
    pub fn create_vault(
        &mut self,
        caller: &Address,
        creator: Address,
        amount: i128,
        start_timestamp: u64,
        end_timestamp: u64,
        milestone_hash: [u8; MILESTONE_HASH_LEN],
        verifier: Option<Address>,
        success_destination: Address,
        failure_destination: Address,
        debit: TransferOutcome,
    ) -> (r: Result<u32, VaultError>)
        requires
            old(self)@.valid(),
            old(self)@.next_vault_id() < u32::MAX,
        ensures
            ({
                let vault = ProductivityVault {
                    creator,
                    amount,
                    start_timestamp,
                    end_timestamp,
                    milestone_hash,
                    verifier,
                    success_destination,
                    failure_destination,
                    status: VaultStatus::Active,
                };
                &&& r == old(self)@.creation_result(*caller, vault, debit)
                &&& final(self)@ == old(self)@.after_creation(*caller, vault, debit)
            }),
            final(self)@.valid(),
    {
        let vault = match ProductivityVault::open(
            caller,
            creator,
            amount,
            start_timestamp,
            end_timestamp,
            milestone_hash,
            verifier,
            success_destination,
            failure_destination,
        ) {
            Ok(v) => v,
            Err(e) => { return Err(e); },
        };
        match vault.funding_transfer().settle(debit) {
            Ok(()) => {},
            Err(e) => { return Err(e); },
        }
        let vault_id = self.vaults.len() as u32;
        self.vaults.push(vault);
        self.events.push(VaultEvent::VaultCreated { vault_id, vault });
        Ok(vault_id)
    }

    /// Decides whether `request` may go ahead on `vault_id`, and if so
    /// names the credit that the ledger has to carry out before the vault
    /// is resolved.
    pub fn authorize(&self, vault_id: u32, request: &Resolution) -> (r: Result<
        Transfer,
        VaultError,
    >)
        ensures
            r == match self@.refusal(vault_id, *request) {
                Some(e) => Err::<Transfer, VaultError>(e),
                None => Ok(self@.vaults[vault_id as int].payout(*request)),
            },
    {
        match require_issued(self.get_vault_state(vault_id)) {
            Err(e) => Err(e),
            Ok(vault) => vault.authorize(request),
        }
    }

    /// Resolves `vault_id` as `request` asks, given the ledger's answer
    /// `credit` to the payout that [`DisciplrVault::authorize`] named.
    ///
    /// Nothing changes when the id was never issued, when the rules refuse
    /// the request, or when the funds did not move.
    pub fn resolve(&mut self, vault_id: u32, request: &Resolution, credit: TransferOutcome) -> (r:
        Result<(), VaultError>)
        requires
            old(self)@.valid(),
        ensures
            r == old(self)@.resolution_result(vault_id, *request, credit),
            final(self)@ == old(self)@.after_resolution(vault_id, *request, credit),
            final(self)@.valid(),
    {
        let vault = match require_issued(self.get_vault_state(vault_id)) {
            Err(e) => { return Err(e); },
            Ok(v) => v,
        };
        let resolved = match vault.resolve(request, credit) {
            Ok(v) => v,
            Err(e) => { return Err(e); },
        };
        self.vaults.set(vault_id as usize, resolved);
        self.events.push(request.event(vault_id));
        Ok(())
    }

    /// The verifier `caller` attests at time `now` that the milestone of
    /// `vault_id` was met. The vault completes, given that the ledger
    /// answered `credit` to the payment of the success destination.
    pub fn validate_milestone(
        &mut self,
        vault_id: u32,
        caller: &Address,
        now: u64,
        credit: TransferOutcome,
    ) -> (r: Result<(), VaultError>)
        requires
            old(self)@.valid(),
        ensures
            ({
                let request = Resolution::Validate { caller: *caller, now };
                &&& r == old(self)@.resolution_result(vault_id, request, credit)
                &&& final(self)@ == old(self)@.after_resolution(vault_id, request, credit)
            }),
            final(self)@.valid(),
    {
        self.resolve(vault_id, &Resolution::Validate { caller: *caller, now }, credit)
    }

    /// Completes `vault_id` for whoever asks, given that the ledger
    /// answered `credit` to the payment of the success destination.
    pub fn release_funds(&mut self, vault_id: u32, credit: TransferOutcome) -> (r: Result<
        (),
        VaultError,
    >)
        requires
            old(self)@.valid(),
        ensures
            r == old(self)@.resolution_result(vault_id, Resolution::Release, credit),
            final(self)@ == old(self)@.after_resolution(vault_id, Resolution::Release, credit),
            final(self)@.valid(),
    {
        self.resolve(vault_id, &Resolution::Release, credit)
    }

    /// Fails `vault_id` at time `now` for whoever asks, given that the
    /// ledger answered `credit` to the payment of the failure destination.
    pub fn redirect_funds(&mut self, vault_id: u32, now: u64, credit: TransferOutcome) -> (r:
        Result<(), VaultError>)
        requires
            old(self)@.valid(),
        ensures
            ({
                let request = Resolution::Redirect { now };
                &&& r == old(self)@.resolution_result(vault_id, request, credit)
                &&& final(self)@ == old(self)@.after_resolution(vault_id, request, credit)
            }),
            final(self)@.valid(),
    {
        self.resolve(vault_id, &Resolution::Redirect { now }, credit)
    }

    /// The creator `caller` cancels `vault_id`, given that the ledger
    /// answered `credit` to the repayment of the creator. A vault can be
    /// cancelled for as long as it is active.
    pub fn cancel_vault(&mut self, vault_id: u32, caller: &Address, credit: TransferOutcome) -> (r:
        Result<(), VaultError>)
        requires
            old(self)@.valid(),
        ensures
            ({
                let request = Resolution::Cancel { caller: *caller };
                &&& r == old(self)@.resolution_result(vault_id, request, credit)
                &&& final(self)@ == old(self)@.after_resolution(vault_id, request, credit)
            }),
            final(self)@.valid(),
    {
        self.resolve(vault_id, &Resolution::Cancel { caller: *caller }, credit)
    }
}

} // verus!
