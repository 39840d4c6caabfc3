use confidential_economic_engine::FeeVault;
use confidential_economic_engine::Key;
use confidential_economic_engine::VaultError;
use confidential_economic_engine::VaultStore;

fn key(tag: u8) -> Key {
    Key::new([tag; 32])
}

fn record(mint: u8, total: u128) -> FeeVault {
    FeeVault {
        authority: key(1),
        token_mint: key(mint),
        vault_token_account: key(mint + 100),
        total_fees_handle: total,
        pending_distribution_handle: 0,
        is_closed: false,
        bump: 255,
    }
}

#[test]
fn a_new_store_is_empty() {
    let store = VaultStore::new();
    assert_eq!(store.len(), 0);
    assert_eq!(store.load(&key(10)), None);
}

#[test]
fn a_saved_record_is_found_by_its_mint() {
    let mut store = VaultStore::new();
    store.save(record(10, 5));
    store.save(record(11, 6));
    assert_eq!(store.len(), 2);
    assert_eq!(store.load(&key(10)), Some(record(10, 5)));
    assert_eq!(store.load(&key(11)), Some(record(11, 6)));
    assert_eq!(store.load(&key(12)), None);
}

#[test]
fn saving_again_replaces_the_record_of_the_mint() {
    let mut store = VaultStore::new();
    store.save(record(10, 5));
    store.save(record(11, 6));
    store.save(record(10, 9));
    assert_eq!(store.len(), 2);
    assert_eq!(store.load(&key(10)), Some(record(10, 9)));
    assert_eq!(store.load(&key(11)), Some(record(11, 6)));
}

#[test]
fn the_store_opens_one_vault_per_mint() {
    let mut store = VaultStore::new();
    assert_eq!(store.open(key(1), key(1), key(10), key(110), 255), Ok(()));
    assert_eq!(store.open(key(1), key(1), key(11), key(111), 254), Ok(()));
    assert_eq!(store.len(), 2);
    assert_eq!(store.load(&key(10)), Some(record(10, 0)));
    assert_eq!(
        store.open(key(2), key(2), key(10), key(120), 7),
        Err(VaultError::AlreadyInitialized)
    );
    assert_eq!(store.len(), 2);
    assert_eq!(store.load(&key(10)), Some(record(10, 0)));
}

#[test]
fn the_store_keeps_a_closed_vaults_mint_taken() {
    let mut store = VaultStore::new();
    let mut closed = record(10, 0);
    closed.is_closed = true;
    store.save(closed);
    assert_eq!(
        store.open(key(1), key(1), key(10), key(110), 255),
        Err(VaultError::AlreadyInitialized)
    );
    assert_eq!(store.load(&key(10)), Some(closed));
}

#[test]
fn the_store_refuses_a_signer_who_does_not_fund_the_record() {
    let mut store = VaultStore::new();
    assert_eq!(store.open(key(1), key(2), key(10), key(110), 255), Err(VaultError::Unauthorized));
    assert_eq!(store.len(), 0);
    assert_eq!(store.load(&key(10)), None);
}
