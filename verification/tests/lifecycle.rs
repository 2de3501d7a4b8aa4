use std::collections::HashMap;

use disciplr_vault::{
    Address, DisciplrVault, ProductivityVault, Resolution, Transfer, TransferOutcome, VaultError,
    VaultEvent, VaultStatus,
};

const START: u64 = 1_700_000_000;
const END: u64 = 1_700_086_400;

/// A ledger of balances that stands in for the asset service.
struct Ledger {
    balances: HashMap<Address, i128>,
    custody: i128,
}

impl Ledger {
    fn with_balance(owner: Address, amount: i128) -> Ledger {
        let mut balances = HashMap::new();
        balances.insert(owner, amount);
        Ledger { balances, custody: 0 }
    }

    fn balance(&self, owner: &Address) -> i128 {
        self.balances.get(owner).copied().unwrap_or(0)
    }

    fn execute(&mut self, transfer: &Transfer) -> TransferOutcome {
        match *transfer {
            Transfer::Debit { from, amount } => {
                if self.balance(&from) < amount {
                    return TransferOutcome::InsufficientFunds;
                }
                *self.balances.entry(from).or_insert(0) -= amount;
                self.custody += amount;
                TransferOutcome::Settled
            }
            Transfer::Credit { to, amount } => {
                if self.custody < amount {
                    return TransferOutcome::Rejected;
                }
                self.custody -= amount;
                *self.balances.entry(to).or_insert(0) += amount;
                TransferOutcome::Settled
            }
        }
    }
}

struct Parties {
    creator: Address,
    verifier: Address,
    success: Address,
    failure: Address,
    stranger: Address,
}

fn parties() -> Parties {
    Parties {
        creator: Address::new([b'A'; 56]),
        verifier: Address::new([b'B'; 56]),
        success: Address::new([b'C'; 56]),
        failure: Address::new([b'D'; 56]),
        stranger: Address::new([b'E'; 56]),
    }
}

/// Funds and creates the vault of the scenarios: 1000 units, locked from
/// START to END, with a verifier.
fn funded_vault(contract: &mut DisciplrVault, ledger: &mut Ledger, p: &Parties) -> u32 {
    let record = ProductivityVault::open(
        &p.creator,
        p.creator,
        1000,
        START,
        END,
        [7u8; 32],
        Some(p.verifier),
        p.success,
        p.failure,
    )
    .unwrap();
    let debit = ledger.execute(&record.funding_transfer());
    contract
        .create_vault(
            &p.creator,
            p.creator,
            1000,
            START,
            END,
            [7u8; 32],
            Some(p.verifier),
            p.success,
            p.failure,
            debit,
        )
        .unwrap()
}

#[test]
fn validation_before_the_deadline_completes_the_vault_and_pays_success() {
    let p = parties();
    let mut ledger = Ledger::with_balance(p.creator, 1500);
    let mut contract = DisciplrVault::new();
    let id = funded_vault(&mut contract, &mut ledger, &p);

    assert_eq!(ledger.balance(&p.creator), 500);
    assert_eq!(ledger.custody, 1000);
    let stored = contract.get_vault_state(id).unwrap();
    assert_eq!(
        stored,
        ProductivityVault {
            creator: p.creator,
            amount: 1000,
            start_timestamp: START,
            end_timestamp: END,
            milestone_hash: [7u8; 32],
            verifier: Some(p.verifier),
            success_destination: p.success,
            failure_destination: p.failure,
            status: VaultStatus::Active,
        }
    );

    let now = END - 1;
    let request = Resolution::Validate { caller: p.verifier, now };
    let payout = contract.authorize(id, &request).unwrap();
    assert_eq!(payout, Transfer::Credit { to: p.success, amount: 1000 });
    let credit = ledger.execute(&payout);
    assert_eq!(contract.validate_milestone(id, &p.verifier, now, credit), Ok(()));

    let after = contract.get_vault_state(id).unwrap();
    assert_eq!(after.status, VaultStatus::Completed);
    assert_eq!(after, ProductivityVault { status: VaultStatus::Completed, ..stored });
    assert_eq!(ledger.custody, 0);
    assert_eq!(ledger.balance(&p.success), 1000);
    assert_eq!(ledger.balance(&p.failure), 0);
    assert_eq!(ledger.balance(&p.creator), 500);
}

#[test]
fn redirect_after_the_deadline_fails_the_vault_and_pays_failure() {
    let p = parties();
    let mut ledger = Ledger::with_balance(p.creator, 1000);
    let mut contract = DisciplrVault::new();
    let id = funded_vault(&mut contract, &mut ledger, &p);

    let now = END + 1;
    let payout = contract.authorize(id, &Resolution::Redirect { now }).unwrap();
    assert_eq!(payout, Transfer::Credit { to: p.failure, amount: 1000 });
    let credit = ledger.execute(&payout);
    assert_eq!(contract.redirect_funds(id, now, credit), Ok(()));

    assert_eq!(contract.get_vault_state(id).unwrap().status, VaultStatus::Failed);
    assert_eq!(ledger.custody, 0);
    assert_eq!(ledger.balance(&p.failure), 1000);
    assert_eq!(ledger.balance(&p.success), 0);

    assert_eq!(
        contract.authorize(id, &Resolution::Validate { caller: p.verifier, now }),
        Err(VaultError::InvalidState)
    );
    assert_eq!(
        contract.validate_milestone(id, &p.verifier, now, TransferOutcome::Settled),
        Err(VaultError::InvalidState)
    );
    assert_eq!(
        contract.validate_milestone(id, &p.verifier, START, TransferOutcome::Settled),
        Err(VaultError::InvalidState)
    );
    assert_eq!(contract.get_vault_state(id).unwrap().status, VaultStatus::Failed);
}

#[test]
fn cancel_by_the_creator_returns_the_funds() {
    let p = parties();
    let mut ledger = Ledger::with_balance(p.creator, 1000);
    let mut contract = DisciplrVault::new();
    let id = funded_vault(&mut contract, &mut ledger, &p);
    assert_eq!(ledger.balance(&p.creator), 0);

    assert_eq!(
        contract.authorize(id, &Resolution::Cancel { caller: p.stranger }),
        Err(VaultError::AuthorizationDenied)
    );
    assert_eq!(
        contract.cancel_vault(id, &p.stranger, TransferOutcome::Settled),
        Err(VaultError::AuthorizationDenied)
    );
    assert_eq!(
        contract.cancel_vault(id, &p.verifier, TransferOutcome::Settled),
        Err(VaultError::AuthorizationDenied)
    );
    assert_eq!(contract.get_vault_state(id).unwrap().status, VaultStatus::Active);
    assert_eq!(ledger.custody, 1000);

    let payout = contract.authorize(id, &Resolution::Cancel { caller: p.creator }).unwrap();
    assert_eq!(payout, Transfer::Credit { to: p.creator, amount: 1000 });
    let credit = ledger.execute(&payout);
    assert_eq!(contract.cancel_vault(id, &p.creator, credit), Ok(()));

    assert_eq!(contract.get_vault_state(id).unwrap().status, VaultStatus::Cancelled);
    assert_eq!(ledger.custody, 0);
    assert_eq!(ledger.balance(&p.creator), 1000);
}

#[test]
fn release_completes_the_vault_for_anyone() {
    let p = parties();
    let mut ledger = Ledger::with_balance(p.creator, 1000);
    let mut contract = DisciplrVault::new();
    let id = funded_vault(&mut contract, &mut ledger, &p);

    let payout = contract.authorize(id, &Resolution::Release).unwrap();
    assert_eq!(payout, Transfer::Credit { to: p.success, amount: 1000 });
    let credit = ledger.execute(&payout);
    assert_eq!(contract.release_funds(id, credit), Ok(()));
    assert_eq!(contract.get_vault_state(id).unwrap().status, VaultStatus::Completed);
    assert_eq!(ledger.balance(&p.success), 1000);

    assert_eq!(
        contract.release_funds(id, TransferOutcome::Settled),
        Err(VaultError::InvalidState)
    );
}

#[test]
fn creation_without_funds_writes_nothing_and_uses_no_id() {
    let p = parties();
    let mut ledger = Ledger::with_balance(p.creator, 999);
    let mut contract = DisciplrVault::new();

    let record = ProductivityVault::open(
        &p.creator,
        p.creator,
        1000,
        START,
        END,
        [7u8; 32],
        Some(p.verifier),
        p.success,
        p.failure,
    )
    .unwrap();
    let debit = ledger.execute(&record.funding_transfer());
    assert_eq!(debit, TransferOutcome::InsufficientFunds);
    assert_eq!(
        contract.create_vault(
            &p.creator,
            p.creator,
            1000,
            START,
            END,
            [7u8; 32],
            Some(p.verifier),
            p.success,
            p.failure,
            debit,
        ),
        Err(VaultError::InsufficientFunds)
    );
    assert_eq!(contract.next_vault_id(), 0);
    assert_eq!(contract.get_vault_state(0), None);
    assert!(contract.events().is_empty());
    assert_eq!(ledger.balance(&p.creator), 999);
    assert_eq!(ledger.custody, 0);

    let id = funded_small(&mut contract, &mut ledger, &p);
    assert_eq!(id, 0);
}

fn funded_small(contract: &mut DisciplrVault, ledger: &mut Ledger, p: &Parties) -> u32 {
    let record = ProductivityVault::open(
        &p.creator,
        p.creator,
        999,
        START,
        END,
        [7u8; 32],
        None,
        p.success,
        p.failure,
    )
    .unwrap();
    let debit = ledger.execute(&record.funding_transfer());
    contract
        .create_vault(&p.creator, p.creator, 999, START, END, [7u8; 32], None, p.success, p.failure, debit)
        .unwrap()
}

#[test]
fn a_payout_that_fails_leaves_the_vault_active() {
    let p = parties();
    let mut ledger = Ledger::with_balance(p.creator, 1000);
    let mut contract = DisciplrVault::new();
    let id = funded_vault(&mut contract, &mut ledger, &p);
    let before = contract.get_vault_state(id).unwrap();
    let events_before = contract.events().len();

    // The custody account was emptied behind the contract's back.
    ledger.custody = 0;
    let now = START + 10;
    let payout = contract.authorize(id, &Resolution::Validate { caller: p.verifier, now }).unwrap();
    let credit = ledger.execute(&payout);
    assert_eq!(credit, TransferOutcome::Rejected);
    assert_eq!(
        contract.validate_milestone(id, &p.verifier, now, credit),
        Err(VaultError::TransferFailed)
    );
    assert_eq!(contract.get_vault_state(id), Some(before));
    assert_eq!(contract.events().len(), events_before);

    // Once the funds are back the same request goes through.
    ledger.custody = 1000;
    let credit = ledger.execute(&payout);
    assert_eq!(contract.validate_milestone(id, &p.verifier, now, credit), Ok(()));
    assert_eq!(contract.get_vault_state(id).unwrap().status, VaultStatus::Completed);
}

#[test]
fn each_operation_publishes_its_event() {
    let p = parties();
    let mut ledger = Ledger::with_balance(p.creator, 4000);
    let mut contract = DisciplrVault::new();
    let a = funded_vault(&mut contract, &mut ledger, &p);
    let b = funded_vault(&mut contract, &mut ledger, &p);
    let c = funded_vault(&mut contract, &mut ledger, &p);
    let d = funded_vault(&mut contract, &mut ledger, &p);
    assert_eq!((a, b, c, d), (0, 1, 2, 3));

    contract.validate_milestone(a, &p.verifier, START, TransferOutcome::Settled).unwrap();
    contract.release_funds(b, TransferOutcome::Settled).unwrap();
    contract.redirect_funds(c, END, TransferOutcome::Settled).unwrap();
    contract.cancel_vault(d, &p.creator, TransferOutcome::Settled).unwrap();
    // A refused call publishes nothing.
    assert!(contract.cancel_vault(d, &p.creator, TransferOutcome::Settled).is_err());

    let record = ProductivityVault {
        creator: p.creator,
        amount: 1000,
        start_timestamp: START,
        end_timestamp: END,
        milestone_hash: [7u8; 32],
        verifier: Some(p.verifier),
        success_destination: p.success,
        failure_destination: p.failure,
        status: VaultStatus::Active,
    };
    let expected = vec![
        VaultEvent::VaultCreated { vault_id: 0, vault: record },
        VaultEvent::VaultCreated { vault_id: 1, vault: record },
        VaultEvent::VaultCreated { vault_id: 2, vault: record },
        VaultEvent::VaultCreated { vault_id: 3, vault: record },
        VaultEvent::MilestoneValidated { vault_id: 0 },
        VaultEvent::FundsReleased { vault_id: 1 },
        VaultEvent::FundsRedirected { vault_id: 2 },
        VaultEvent::VaultCancelled { vault_id: 3 },
    ];
    assert_eq!(contract.events(), &expected);

    let topics: Vec<&str> = contract.events().iter().map(|e| e.topic()).collect();
    assert_eq!(
        topics,
        vec![
            "vault_created",
            "vault_created",
            "vault_created",
            "vault_created",
            "milestone_validated",
            "funds_released",
            "funds_redirected",
            "vault_cancelled",
        ]
    );
    let ids: Vec<u32> = contract.events().iter().map(|e| e.vault_id()).collect();
    assert_eq!(ids, vec![0, 1, 2, 3, 0, 1, 2, 3]);

    let taken = contract.take_events();
    assert_eq!(taken, expected);
    assert!(contract.events().is_empty());
    assert_eq!(contract.next_vault_id(), 4);
    assert_eq!(contract.get_vault_state(2).unwrap().status, VaultStatus::Failed);

    assert_eq!(Resolution::Release.event(9), VaultEvent::FundsReleased { vault_id: 9 });
    assert_eq!(Resolution::Release.status_after(), VaultStatus::Completed);
    assert_eq!(Resolution::Redirect { now: 0 }.status_after(), VaultStatus::Failed);
    assert_eq!(Resolution::Cancel { caller: p.creator }.status_after(), VaultStatus::Cancelled);
    assert_eq!(
        Resolution::Validate { caller: p.verifier, now: 0 }.status_after(),
        VaultStatus::Completed
    );
}
