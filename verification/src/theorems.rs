//! What holds of the contract whatever calls it receives.
//!
//! A history is a sequence of calls, each with the answers that its
//! collaborators gave. The theorems speak of the states that a history
//! leads through, in the terms in which the operations of
//! [`DisciplrVault`](crate::contract::DisciplrVault) state their results.

use vstd::prelude::*;
use crate::address::Address;
use crate::contract::ContractState;
use crate::custody::TransferOutcome;
use crate::error::VaultError;
use crate::status::VaultStatus;
use crate::vault::{ProductivityVault, Resolution};

verus! {

/// One call of the contract, with what the ledger answered to it.
pub enum Call {
    /// `caller` creates a vault with the terms of `vault`.
    Create { caller: Address, vault: ProductivityVault, debit: TransferOutcome },
    /// Someone asks to resolve `vault_id` as `request` says.
    Resolve { vault_id: u32, request: Resolution, credit: TransferOutcome },
}

impl ProductivityVault {
    /// This vault in the active state.
    pub open spec fn activated(self) -> ProductivityVault {
        ProductivityVault { status: VaultStatus::Active, ..self }
    }

    /// Whether the two records differ at most in their state.
    pub open spec fn same_terms(self, other: ProductivityVault) -> bool {
        self.activated() == other.activated()
    }
}

impl ContractState {
    /// The state after `call`.
    pub open spec fn after(self, call: Call) -> ContractState {
        match call {
            Call::Create { caller, vault, debit } => self.after_creation(
                caller,
                vault.activated(),
                debit,
            ),
            Call::Resolve { vault_id, request, credit } => self.after_resolution(
                vault_id,
                request,
                credit,
            ),
        }
    }

    /// The id that `call` hands out: that of the new vault, if `call` is a
    /// creation that goes through.
    pub open spec fn issued_by(self, call: Call) -> Option<u32> {
        match call {
            Call::Create { caller, vault, debit } => match self.creation_result(
                caller,
                vault.activated(),
                debit,
            ) {
                Ok(vault_id) => Some(vault_id),
                Err(_) => None,
            },
            Call::Resolve { .. } => None,
        }
    }

    /// Whether `call` resolves `vault_id`.
    pub open spec fn resolved_by(self, call: Call, vault_id: u32) -> bool {
        match call {
            Call::Create { .. } => false,
            Call::Resolve { vault_id: target, request, credit } => target == vault_id
                && self.resolution_result(target, request, credit) is Ok,
        }
    }

    /// The state after all of `calls`, in their order.
    pub open spec fn after_all(self, calls: Seq<Call>) -> ContractState
        decreases calls.len(),
    {
        if calls.len() == 0 {
            self
        } else {
            self.after_all(calls.drop_last()).after(calls.last())
        }
    }
}

/// One call adds at most one vault, and what it leaves of an earlier vault
/// are its terms, and its state too if that was terminal.
proof fn one_call(s: ContractState, call: Call, vault_id: u32)
    ensures
        s.after(call).vaults.len() == s.vaults.len() + (if s.issued_by(call) is Some {
            1nat
        } else {
            0nat
        }),
        s.issued(vault_id) ==> s.after(call).vaults[vault_id as int].same_terms(
            s.vaults[vault_id as int],
        ),
        s.issued(vault_id) && s.vaults[vault_id as int].status.terminal() ==> s.after(
            call,
        ).vaults[vault_id as int] == s.vaults[vault_id as int],
        s.resolved_by(call, vault_id) ==> s.after(call).vaults[vault_id as int].status.terminal(),
{
}

/// Cutting a history after `k + 1` calls gives the history cut after `k`
/// calls, followed by call `k`.
proof fn one_more_call(s: ContractState, calls: Seq<Call>, k: int)
    requires
        0 <= k < calls.len(),
    ensures
        s.after_all(calls.take(k + 1)) == s.after_all(calls.take(k)).after(calls[k]),
{
    assert(calls.take(k + 1).drop_last() == calls.take(k));
}

/// A history never takes a vault away: the number of vaults only grows
/// along it.
pub proof fn vaults_are_never_removed(s: ContractState, calls: Seq<Call>, i: int, j: int)
    requires
        0 <= i <= j <= calls.len(),
    ensures
        s.after_all(calls.take(i)).next_vault_id() <= s.after_all(calls.take(j)).next_vault_id(),
    decreases j - i,
{
    if i < j {
        vaults_are_never_removed(s, calls, i, j - 1);
        one_more_call(s, calls, j - 1);
        one_call(s.after_all(calls.take(j - 1)), calls[j - 1], 0);
    }
}

/// A vault keeps its terms through every history: its creator, amount,
/// window, milestone, verifier and destinations stay as they were written.
/// Only its state may differ.
pub proof fn vault_terms_never_change(s: ContractState, calls: Seq<Call>, vault_id: u32)
    requires
        s.issued(vault_id),
    ensures
        s.after_all(calls).issued(vault_id),
        s.after_all(calls).vaults[vault_id as int].same_terms(s.vaults[vault_id as int]),
    decreases calls.len(),
{
    if calls.len() > 0 {
        vault_terms_never_change(s, calls.drop_last(), vault_id);
        one_call(s.after_all(calls.drop_last()), calls.last(), vault_id);
    }
}

/// A vault in a terminal state is never changed again, whatever calls
/// follow.
pub proof fn terminal_vault_never_changes(s: ContractState, calls: Seq<Call>, vault_id: u32)
    requires
        s.issued(vault_id),
        s.vaults[vault_id as int].status.terminal(),
    ensures
        s.after_all(calls).vault(vault_id) == s.vault(vault_id),
    decreases calls.len(),
{
    if calls.len() > 0 {
        terminal_vault_never_changes(s, calls.drop_last(), vault_id);
        one_call(s.after_all(calls.drop_last()), calls.last(), vault_id);
    }
}

/// Every request to resolve a vault that is in a terminal state fails with
/// `InvalidState`, whoever asks, whenever, and whatever the ledger answered.
pub proof fn terminal_vault_refuses(
    s: ContractState,
    vault_id: u32,
    request: Resolution,
    credit: TransferOutcome,
)
    requires
        s.issued(vault_id),
        s.vaults[vault_id as int].status.terminal(),
    ensures
        s.resolution_result(vault_id, request, credit) == Err::<(), VaultError>(
            VaultError::InvalidState,
        ),
        s.after_resolution(vault_id, request, credit) == s,
{
}

/// A vault is resolved at most once. If call `i` of a history resolves
/// `vault_id`, every later call that asks to resolve it fails with
/// `InvalidState` and changes nothing.
pub proof fn vault_resolves_at_most_once(
    s: ContractState,
    calls: Seq<Call>,
    i: int,
    j: int,
    vault_id: u32,
)
    requires
        0 <= i < j < calls.len(),
        s.after_all(calls.take(i)).resolved_by(calls[i], vault_id),
        calls[j] is Resolve,
        calls[j]->vault_id == vault_id,
    ensures
        ({
            let before = s.after_all(calls.take(j));
            &&& before.resolution_result(vault_id, calls[j]->request, calls[j]->credit) == Err::<
                (),
                VaultError,
            >(VaultError::InvalidState)
            &&& before.after(calls[j]) == before
            &&& !before.resolved_by(calls[j], vault_id)
        }),
{
    let at_i = s.after_all(calls.take(i));
    let past_i = s.after_all(calls.take(i + 1));
    one_more_call(s, calls, i);
    one_call(at_i, calls[i], vault_id);
    assert(past_i.issued(vault_id));
    let rest = calls.take(j).skip(i + 1);
    assert(calls.take(j) == calls.take(i + 1) + rest);
    history_in_two_parts(s, calls.take(i + 1), rest);
    terminal_vault_never_changes(past_i, rest, vault_id);
}

/// The state after two histories in a row is the state that the second
/// leads to from where the first ended.
pub proof fn history_in_two_parts(s: ContractState, first: Seq<Call>, second: Seq<Call>)
    ensures
        s.after_all(first + second) == s.after_all(first).after_all(second),
    decreases second.len(),
{
    if second.len() == 0 {
        assert(first + second == first);
    } else {
        assert((first + second).drop_last() == first + second.drop_last());
        history_in_two_parts(s, first, second.drop_last());
    }
}

/// Ids are handed out in strictly increasing order, so none is handed out
/// twice: of two creations that go through in a history, the later one gets
/// the greater id. The history has to stay within the range of 32-bit ids.
pub proof fn vault_ids_strictly_increase(s: ContractState, calls: Seq<Call>, i: int, j: int)
    requires
        0 <= i < j < calls.len(),
        s.after_all(calls).next_vault_id() <= u32::MAX,
        s.after_all(calls.take(i)).issued_by(calls[i]) is Some,
        s.after_all(calls.take(j)).issued_by(calls[j]) is Some,
    ensures
        s.after_all(calls.take(i)).issued_by(calls[i])->0 < s.after_all(calls.take(j)).issued_by(
            calls[j],
        )->0,
{
    one_more_call(s, calls, i);
    one_call(s.after_all(calls.take(i)), calls[i], 0);
    vaults_are_never_removed(s, calls, i + 1, j);
    vaults_are_never_removed(s, calls, j, calls.len() as int);
    assert(calls.take(calls.len() as int) == calls);
}

/// A creation that goes through can be read back: the record stored under
/// the id that it returns has the terms that were given, in the active
/// state. It goes through whenever the caller is the creator, the terms
/// obey the creation rules and the funding debit has settled.
pub proof fn created_vault_can_be_read(
    s: ContractState,
    caller: Address,
    vault: ProductivityVault,
    debit: TransferOutcome,
)
    requires
        s.next_vault_id() < u32::MAX,
        vault.status == VaultStatus::Active,
        caller == vault.creator,
        vault.valid_terms(),
        debit == TransferOutcome::Settled,
    ensures
        s.creation_result(caller, vault, debit) == Ok::<u32, VaultError>(
            s.next_vault_id() as u32,
        ),
        s.after_creation(caller, vault, debit).vault(s.next_vault_id() as u32) == Some(vault),
        s.after_creation(caller, vault, debit).next_vault_id() == s.next_vault_id() + 1,
        forall|other: u32|
            other != s.next_vault_id() ==> s.after_creation(caller, vault, debit).vault(other)
                == s.vault(other),
{
}

/// On an active vault, validation is refused with `AuthorizationDenied` to
/// every caller but the verifier of the vault, and to every caller when the
/// vault has no verifier. The verifier is refused with `WindowClosed` from
/// the end of the window on. Nothing changes in either case.
pub proof fn validation_needs_verifier_and_open_window(
    s: ContractState,
    vault_id: u32,
    caller: Address,
    now: u64,
    credit: TransferOutcome,
)
    requires
        s.issued(vault_id),
        s.vaults[vault_id as int].status == VaultStatus::Active,
    ensures
        ({
            let vault = s.vaults[vault_id as int];
            let request = Resolution::Validate { caller, now };
            &&& vault.verifier != Some(caller) ==> s.resolution_result(vault_id, request, credit)
                == Err::<(), VaultError>(VaultError::AuthorizationDenied)
            &&& vault.verifier == Some(caller) && now >= vault.end_timestamp
                ==> s.resolution_result(vault_id, request, credit) == Err::<(), VaultError>(
                VaultError::WindowClosed,
            )
            &&& vault.verifier != Some(caller) || now >= vault.end_timestamp
                ==> s.after_resolution(vault_id, request, credit) == s
            &&& vault.verifier == Some(caller) && now < vault.end_timestamp && credit
                == TransferOutcome::Settled ==> {
                &&& s.resolution_result(vault_id, request, credit) is Ok
                &&& s.after_resolution(vault_id, request, credit).vaults[vault_id as int].status
                    == VaultStatus::Completed
            }
        }),
{
}

/// On an active vault, redirection is refused with `WindowStillOpen`
/// before the end of the window and changes nothing. From the end of the
/// window on it goes through for any caller, provided the payment settled,
/// and leaves the vault in the failed state.
pub proof fn redirection_waits_for_deadline(
    s: ContractState,
    vault_id: u32,
    now: u64,
    credit: TransferOutcome,
)
    requires
        s.issued(vault_id),
        s.vaults[vault_id as int].status == VaultStatus::Active,
    ensures
        ({
            let vault = s.vaults[vault_id as int];
            let request = Resolution::Redirect { now };
            &&& now < vault.end_timestamp ==> {
                &&& s.resolution_result(vault_id, request, credit) == Err::<(), VaultError>(
                    VaultError::WindowStillOpen,
                )
                &&& s.after_resolution(vault_id, request, credit) == s
            }
            &&& now >= vault.end_timestamp && credit == TransferOutcome::Settled ==> {
                &&& s.resolution_result(vault_id, request, credit) is Ok
                &&& s.after_resolution(vault_id, request, credit).vaults[vault_id as int].status
                    == VaultStatus::Failed
            }
        }),
{
}

/// No call moves funds unless the vault is resolved by it: when the ledger
/// did not carry out the payout, the vault stays as it was, and the call
/// fails with `TransferFailed` if the rules had let it go ahead.
pub proof fn failed_payout_changes_nothing(
    s: ContractState,
    vault_id: u32,
    request: Resolution,
    credit: TransferOutcome,
)
    requires
        credit != TransferOutcome::Settled,
    ensures
        s.after_resolution(vault_id, request, credit) == s,
        s.refusal(vault_id, request) is None ==> s.resolution_result(vault_id, request, credit)
            == Err::<(), VaultError>(VaultError::TransferFailed),
{
}

/// Every record that a history writes obeys the creation rules, and the
/// state stays valid as long as the ids stay within 32 bits.
pub proof fn validity_is_kept(s: ContractState, calls: Seq<Call>)
    requires
        s.valid(),
        s.after_all(calls).next_vault_id() <= u32::MAX,
    ensures
        s.after_all(calls).valid(),
    decreases calls.len(),
{
    if calls.len() > 0 {
        let before = s.after_all(calls.drop_last());
        one_call(before, calls.last(), 0);
        validity_is_kept(s, calls.drop_last());
        let after = before.after(calls.last());
        assert forall|i: int| 0 <= i < after.vaults.len() implies (
        #[trigger] after.vaults[i]).valid_terms() by {
            if i < before.vaults.len() {
                assert(before.vaults[i].valid_terms());
            }
        }
    }
}

} // verus!
