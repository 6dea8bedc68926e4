use std::collections::HashSet;

use secman::engine::Vault;
use secman::errors::VaultError;
use secman::store::{init, is_first_run, InitAction};

fn fresh_vault() -> Vault {
    let salt = match init(false, false).unwrap() {
        InitAction::CreateVault(salt) => salt,
        InitAction::AlreadyInitialized => panic!("a first run must create the vault"),
    };
    assert_eq!(salt.len(), 16);
    Vault::from_salt(salt).unwrap()
}

#[test]
fn first_run_is_decided_by_the_directory() {
    assert!(is_first_run(false));
    assert!(!is_first_run(true));
}

#[test]
fn init_decisions() {
    assert!(matches!(
        init(false, false),
        Ok(InitAction::CreateVault(_))
    ));
    assert!(matches!(init(true, true), Ok(InitAction::AlreadyInitialized)));
    assert!(matches!(init(true, false), Err(VaultError::CorruptVault)));
}

#[test]
fn init_salts_are_random_per_vault() {
    let a = match init(false, false).unwrap() {
        InitAction::CreateVault(salt) => salt,
        InitAction::AlreadyInitialized => unreachable!(),
    };
    let b = match init(false, false).unwrap() {
        InitAction::CreateVault(salt) => salt,
        InitAction::AlreadyInitialized => unreachable!(),
    };
    assert_ne!(a, b);
}

#[test]
fn from_salt_rejects_malformed_salt() {
    assert!(matches!(
        Vault::from_salt(vec![1u8; 15]),
        Err(VaultError::CorruptVault)
    ));
    assert!(matches!(
        Vault::from_salt(vec![]),
        Err(VaultError::CorruptVault)
    ));
    assert!(Vault::from_salt(vec![1u8; 16]).is_ok());
}

#[test]
fn end_to_end_add_list_remove() {
    let mut vault = fresh_vault();
    let key = vault.unlock(b"hunter2").unwrap();

    vault.add(&key, "github".to_string(), b"s3cr3t").unwrap();
    let listing = vault.list(&key);
    assert_eq!(listing.len(), 1);
    assert_eq!(listing[0].name, "github");
    assert_eq!(listing[0].outcome.as_ref().unwrap(), &b"s3cr3t".to_vec());

    vault.remove(&key, &"github".to_string()).unwrap();
    assert_eq!(vault.list(&key).len(), 0);

    assert_eq!(
        vault.remove(&key, &"github".to_string()),
        Err(VaultError::NotFound)
    );
}

#[test]
fn duplicate_add_keeps_the_original() {
    let mut vault = fresh_vault();
    let key = vault.unlock(b"hunter2").unwrap();

    vault.add(&key, "x".to_string(), b"a").unwrap();
    assert_eq!(
        vault.add(&key, "x".to_string(), b"b"),
        Err(VaultError::DuplicateEntry)
    );

    let listing = vault.list(&key);
    assert_eq!(listing.len(), 1);
    assert_eq!(listing[0].name, "x");
    assert_eq!(listing[0].outcome.as_ref().unwrap(), &b"a".to_vec());
    assert_eq!(vault.get(&key, &"x".to_string()).unwrap(), b"a".to_vec());
}

#[test]
fn add_rejects_invalid_names() {
    let mut vault = fresh_vault();
    let key = vault.unlock(b"hunter2").unwrap();
    for bad in ["", ".", "..", ".salt", "a/b", "a\\b"] {
        assert_eq!(
            vault.add(&key, bad.to_string(), b"v"),
            Err(VaultError::MalformedEntry)
        );
    }
    assert_eq!(vault.len(), 0);
}

#[test]
fn wrong_passphrase_fails_every_entry() {
    let mut vault = fresh_vault();
    let key = vault.unlock(b"right one").unwrap();
    vault.add(&key, "a".to_string(), b"1").unwrap();
    vault.add(&key, "b".to_string(), b"2").unwrap();
    vault.add(&key, "c".to_string(), b"3").unwrap();

    let wrong = vault.unlock(b"wrong one").unwrap();
    let listing = vault.list(&wrong);
    assert_eq!(listing.len(), 3);
    for row in &listing {
        assert_eq!(row.outcome, Err(VaultError::Authentication));
    }
    assert_eq!(
        vault.get(&wrong, &"a".to_string()),
        Err(VaultError::Authentication)
    );
    // The confirm-before-delete policy: a wrong key cannot remove an entry.
    assert_eq!(
        vault.remove(&wrong, &"a".to_string()),
        Err(VaultError::Authentication)
    );
    assert_eq!(vault.len(), 3);
}

#[test]
fn get_missing_entry_is_not_found() {
    let vault = fresh_vault();
    let key = vault.unlock(b"pw").unwrap();
    assert_eq!(
        vault.get(&key, &"nothing".to_string()),
        Err(VaultError::NotFound)
    );
}

#[test]
fn nonces_are_unique_across_adds() {
    let mut vault = fresh_vault();
    let key = vault.unlock(b"pw").unwrap();
    let n = 300;
    for i in 0..n {
        vault.add(&key, format!("entry{}", i), b"same payload").unwrap();
    }
    let mut nonces: HashSet<Vec<u8>> = HashSet::new();
    for i in 0..n {
        let (_, data) = vault.entry_at(i);
        assert!(nonces.insert(data[..12].to_vec()), "a nonce repeated");
    }
    assert_eq!(nonces.len(), n);
}

#[test]
fn listing_annotates_bad_entries_without_hiding_the_rest() {
    let mut vault = fresh_vault();
    let key = vault.unlock(b"pw").unwrap();
    vault.add(&key, "good".to_string(), b"fine").unwrap();
    // A file too short to even hold a nonce.
    vault.load_entry("stub".to_string(), vec![1, 2, 3]).unwrap();
    // A file sealed under some other vault's key.
    let foreign = Vault::from_salt(vec![9u8; 16]).unwrap();
    let foreign_key = foreign.unlock(b"pw").unwrap();
    let mut tampered = fresh_vault();
    tampered.add(&foreign_key, "alien".to_string(), b"x").unwrap();
    let (_, alien_bytes) = tampered.entry_at(0);
    vault.load_entry("alien".to_string(), alien_bytes.clone()).unwrap();

    let listing = vault.list(&key);
    assert_eq!(listing.len(), 3);
    assert_eq!(listing[0].name, "good");
    assert_eq!(listing[0].outcome.as_ref().unwrap(), &b"fine".to_vec());
    assert_eq!(listing[1].name, "stub");
    assert_eq!(listing[1].outcome, Err(VaultError::MalformedEntry));
    assert_eq!(listing[2].name, "alien");
    assert_eq!(listing[2].outcome, Err(VaultError::Authentication));
}

#[test]
fn load_entry_rejects_bad_or_duplicate_names() {
    let mut vault = fresh_vault();
    assert_eq!(
        vault.load_entry(".salt".to_string(), vec![0; 28]),
        Err(VaultError::MalformedEntry)
    );
    vault.load_entry("seen".to_string(), vec![0; 28]).unwrap();
    assert_eq!(
        vault.load_entry("seen".to_string(), vec![0; 28]),
        Err(VaultError::DuplicateEntry)
    );
    assert_eq!(vault.len(), 1);
}

#[test]
fn exit_codes_are_distinct_and_nonzero() {
    let all = [
        VaultError::Init,
        VaultError::CorruptVault,
        VaultError::KeyDerivation,
        VaultError::Randomness,
        VaultError::Authentication,
        VaultError::MalformedEntry,
        VaultError::NotFound,
        VaultError::DuplicateEntry,
    ];
    let mut seen = HashSet::new();
    for e in all {
        let code = e.exit_code();
        assert_ne!(code, 0);
        assert!(seen.insert(code), "exit codes must be distinct");
    }
}
