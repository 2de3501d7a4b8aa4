use disciplr_vault::{Address, DisciplrVault, TransferOutcome, VaultStatus};

#[test]
fn get_vault_state_returns_some_with_matching_fields() {
    let mut contract = DisciplrVault::new();

    let creator = Address::new([1u8; 56]);
    let verifier = Address::new([2u8; 56]);
    let success_destination = Address::new([3u8; 56]);
    let failure_destination = Address::new([4u8; 56]);

    let amount = 1_000_i128;
    let start_timestamp = 1_700_000_000_u64;
    let end_timestamp = 1_700_086_400_u64;
    let milestone_hash = [7u8; 32];

    let vault_id = contract
        .create_vault(
            &creator,
            creator,
            amount,
            start_timestamp,
            end_timestamp,
            milestone_hash,
            Some(verifier),
            success_destination,
            failure_destination,
            TransferOutcome::Settled,
        )
        .unwrap();

    let vault_state = contract.get_vault_state(vault_id);
    assert!(vault_state.is_some());

    let vault = vault_state.unwrap();
    assert_eq!(vault.creator, creator);
    assert_eq!(vault.amount, amount);
    assert_eq!(vault.start_timestamp, start_timestamp);
    assert_eq!(vault.end_timestamp, end_timestamp);
    assert_eq!(vault.milestone_hash, milestone_hash);
    assert_eq!(vault.verifier, Some(verifier));
    assert_eq!(vault.success_destination, success_destination);
    assert_eq!(vault.failure_destination, failure_destination);
    assert_eq!(vault.status, VaultStatus::Active);
}

#[test]
fn get_vault_state_is_none_for_an_id_never_issued() {
    let mut contract = DisciplrVault::new();
    assert_eq!(contract.get_vault_state(0), None);
    assert_eq!(contract.get_vault_state(u32::MAX), None);

    let creator = Address::new([1u8; 56]);
    let id = contract
        .create_vault(
            &creator,
            creator,
            5,
            10,
            20,
            [0u8; 32],
            None,
            Address::new([3u8; 56]),
            Address::new([4u8; 56]),
            TransferOutcome::Settled,
        )
        .unwrap();
    assert_eq!(id, 0);
    assert!(contract.get_vault_state(0).is_some());
    assert_eq!(contract.get_vault_state(1), None);
}

#[test]
fn a_vault_without_verifier_is_stored_without_one() {
    let mut contract = DisciplrVault::new();
    let creator = Address::new([1u8; 56]);
    let id = contract
        .create_vault(
            &creator,
            creator,
            1,
            0,
            0,
            [9u8; 32],
            None,
            Address::new([3u8; 56]),
            Address::new([4u8; 56]),
            TransferOutcome::Settled,
        )
        .unwrap();
    let vault = contract.get_vault_state(id).unwrap();
    assert_eq!(vault.verifier, None);
    assert_eq!(vault.amount, 1);
    assert_eq!(vault.start_timestamp, 0);
    assert_eq!(vault.end_timestamp, 0);
    assert_eq!(vault.milestone_hash, [9u8; 32]);
    assert_eq!(vault.status, VaultStatus::Active);
}
