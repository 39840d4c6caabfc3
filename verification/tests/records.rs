use confidential_economic_engine::transfer::copy_ciphertext;
use confidential_economic_engine::CollectFee;
use confidential_economic_engine::Distribute;
use confidential_economic_engine::FeeVault;
use confidential_economic_engine::Initialize;
use confidential_economic_engine::Key;
use confidential_economic_engine::SettleEpoch;
use confidential_economic_engine::TransferRequest;
use confidential_economic_engine::VaultError;
use confidential_economic_engine::ZERO_HANDLE;

fn key(tag: u8) -> Key {
    Key::new([tag; 32])
}

fn vault() -> FeeVault {
    FeeVault::open(key(1), key(10), key(11), 253)
}

#[test]
fn an_opened_record_holds_the_zero_handle_twice() {
    let record = vault();
    assert_eq!(ZERO_HANDLE, 0);
    assert_eq!(record.authority, key(1));
    assert_eq!(record.token_mint, key(10));
    assert_eq!(record.vault_token_account, key(11));
    assert_eq!(record.total_fees_handle, ZERO_HANDLE);
    assert_eq!(record.pending_distribution_handle, ZERO_HANDLE);
    assert!(!record.is_closed);
    assert_eq!(record.bump, 253);
}

#[test]
fn recording_a_handle_touches_one_slot_only() {
    let mut record = vault();
    record.record_total(77);
    assert_eq!(record, FeeVault { total_fees_handle: 77, ..vault() });
    record.record_pending(u128::MAX);
    assert_eq!(
        record,
        FeeVault { total_fees_handle: 77, pending_distribution_handle: u128::MAX, ..vault() }
    );
}

#[test]
fn sealing_zeroes_both_slots_and_closes() {
    let mut record = vault();
    record.record_total(77);
    record.record_pending(5);
    record.seal();
    assert_eq!(record, FeeVault { is_closed: true, ..vault() });
    record.seal();
    assert_eq!(record, FeeVault { is_closed: true, ..vault() });
}

#[test]
fn a_record_knows_its_authority_its_custody_account_and_its_mint() {
    let record = vault();
    assert!(record.is_authority(&key(1)));
    assert!(!record.is_authority(&key(10)));
    assert!(record.is_mint(&key(10)));
    assert!(!record.is_mint(&key(11)));
    assert!(record.is_custody(&key(11)));
    assert!(!record.is_custody(&key(1)));
}

#[test]
fn keys_that_differ_in_one_byte_are_different_keys() {
    for position in [0usize, 15, 31] {
        let mut bytes = [9u8; 32];
        bytes[position] = 8;
        assert!(Key::new(bytes) != key(9));
        assert!(!(Key::new(bytes) == key(9)));
    }
    assert!(key(9) == Key::new([9u8; 32]));
}

#[test]
fn the_guard_of_an_initialisation_names_the_refusal() {
    let mut accounts = Initialize {
        authority: key(1),
        payer: key(1),
        token_mint: key(10),
        vault_token_account: key(11),
        fee_vault: None,
        bump: 253,
    };
    assert_eq!(accounts.guard(), Ok(()));
    accounts.payer = key(2);
    assert_eq!(accounts.guard(), Err(VaultError::Unauthorized));
    accounts.fee_vault = Some(vault());
    assert_eq!(accounts.guard(), Err(VaultError::AlreadyInitialized));
}

#[test]
fn the_guard_of_a_collection_names_the_refusal() {
    let mut accounts = CollectFee {
        payer: key(3),
        fee_vault: vault(),
        from_token: key(12),
        vault_token_account: key(11),
        token_mint: key(10),
    };
    assert_eq!(accounts.guard(), Ok(()));
    accounts.token_mint = key(11);
    assert_eq!(accounts.guard(), Err(VaultError::AccountMismatch));
    accounts.token_mint = key(10);
    accounts.vault_token_account = key(12);
    assert_eq!(accounts.guard(), Err(VaultError::AccountMismatch));
    accounts.fee_vault.is_closed = true;
    assert_eq!(accounts.guard(), Err(VaultError::VaultClosed));
}

#[test]
fn the_guard_of_a_distribution_names_the_refusal() {
    let mut accounts = Distribute {
        authority: key(1),
        fee_vault: vault(),
        vault_token_account: key(11),
        recipient_token_account: key(13),
        token_mint: key(10),
    };
    assert_eq!(accounts.guard(), Ok(()));
    accounts.token_mint = key(13);
    assert_eq!(accounts.guard(), Err(VaultError::AccountMismatch));
    accounts.authority = key(2);
    assert_eq!(accounts.guard(), Err(VaultError::Unauthorized));
    accounts.fee_vault.is_closed = true;
    assert_eq!(accounts.guard(), Err(VaultError::VaultClosed));
}

#[test]
fn the_guard_of_a_settlement_names_the_refusal() {
    let mut accounts = SettleEpoch { authority: key(1), fee_vault: vault() };
    assert_eq!(accounts.guard(), Ok(()));
    accounts.authority = key(2);
    assert_eq!(accounts.guard(), Err(VaultError::Unauthorized));
    accounts.fee_vault.is_closed = true;
    assert_eq!(accounts.guard(), Err(VaultError::VaultClosed));
}

#[test]
fn a_payment_goes_into_the_custody_account_on_record() {
    let accounts = CollectFee {
        payer: key(3),
        fee_vault: vault(),
        from_token: key(12),
        vault_token_account: key(11),
        token_mint: key(10),
    };
    assert_eq!(
        accounts.payment_request(vec![4, 5, 6], 9),
        TransferRequest {
            source: key(12),
            destination: key(11),
            mint: key(10),
            authority: key(3),
            ciphertext: vec![4, 5, 6],
            input_type: 0,
            decimals: 9,
        }
    );
}

#[test]
fn a_payout_comes_out_of_the_custody_account_on_record() {
    let accounts = Distribute {
        authority: key(1),
        fee_vault: vault(),
        vault_token_account: key(11),
        recipient_token_account: key(13),
        token_mint: key(10),
    };
    assert_eq!(
        accounts.payout_request(vec![], 0),
        TransferRequest {
            source: key(11),
            destination: key(13),
            mint: key(10),
            authority: key(1),
            ciphertext: vec![],
            input_type: 0,
            decimals: 0,
        }
    );
}

#[test]
fn a_copied_ciphertext_has_the_same_bytes() {
    assert_eq!(copy_ciphertext(&vec![1, 2, 3]), vec![1, 2, 3]);
    assert_eq!(copy_ciphertext(&Vec::new()), Vec::<u8>::new());
}
