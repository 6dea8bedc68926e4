use secman::cipher::{open_entry, seal_entry, seal_with_nonce};
use secman::errors::VaultError;
use secman::kdf;

fn test_key() -> kdf::MasterKey {
    kdf::derive(b"correct horse battery staple", &[7u8; 16]).unwrap()
}

#[test]
fn derive_is_deterministic() {
    let a = kdf::derive(b"passphrase", &[1u8; 16]).unwrap();
    let b = kdf::derive(b"passphrase", &[1u8; 16]).unwrap();
    assert_eq!(a.as_bytes(), b.as_bytes());
    assert_eq!(a.as_bytes().len(), 32);
}

#[test]
fn derive_differs_across_salts_and_passphrases() {
    let a = kdf::derive(b"passphrase", &[1u8; 16]).unwrap();
    let b = kdf::derive(b"passphrase", &[2u8; 16]).unwrap();
    let c = kdf::derive(b"passphrasf", &[1u8; 16]).unwrap();
    assert_ne!(a.as_bytes(), b.as_bytes());
    assert_ne!(a.as_bytes(), c.as_bytes());
}

#[test]
fn derive_is_not_the_passphrase() {
    let pass = [0x41u8; 32];
    let key = kdf::derive(&pass, &[3u8; 16]).unwrap();
    assert_ne!(key.as_bytes(), &pass[..]);
}

#[test]
fn derive_rejects_short_salt() {
    assert!(matches!(
        kdf::derive(b"passphrase", &[1u8; 4]),
        Err(VaultError::KeyDerivation)
    ));
}

#[test]
fn wipe_zeroes_the_key() {
    let mut key = test_key();
    key.wipe();
    assert_eq!(key.as_bytes(), &[0u8; 32][..]);
}

#[test]
fn seal_then_open_round_trips() {
    let key = test_key();
    let payload = b"s3cr3t payload \x00\xff";
    let sealed = seal_entry(&key, payload).unwrap();
    assert_eq!(sealed.len(), payload.len() + 12 + 16);
    let opened = open_entry(&key, &sealed).unwrap();
    assert_eq!(opened, payload.to_vec());
}

#[test]
fn seal_round_trips_empty_payload() {
    let key = test_key();
    let sealed = seal_entry(&key, b"").unwrap();
    assert_eq!(sealed.len(), 28);
    assert_eq!(open_entry(&key, &sealed).unwrap(), Vec::<u8>::new());
}

#[test]
fn sealing_is_deterministic_given_the_nonce() {
    let key = test_key();
    let nonce = [5u8; 12];
    let a = seal_with_nonce(&key, &nonce, b"payload");
    let b = seal_with_nonce(&key, &nonce, b"payload");
    assert_eq!(a, b);
}

#[test]
fn ciphertext_is_not_the_plaintext() {
    let key = test_key();
    let payload = b"plaintext message";
    let sealed = seal_with_nonce(&key, &[5u8; 12], payload);
    assert_ne!(&sealed[12..12 + payload.len()], &payload[..]);
}

#[test]
fn decryption_returns_plaintext_not_ciphertext() {
    let key = test_key();
    let sealed = seal_with_nonce(&key, &[5u8; 12], b"abcdef");
    let opened = open_entry(&key, &sealed).unwrap();
    assert_eq!(opened.len(), 6);
    assert_ne!(&sealed[12..18], &opened[..]);
}

#[test]
fn flipping_any_bit_fails_authentication() {
    let key = test_key();
    let sealed = seal_entry(&key, b"pw").unwrap();
    for byte in 0..sealed.len() {
        for bit in 0..8 {
            let mut tampered = sealed.clone();
            tampered[byte] ^= 1 << bit;
            assert_eq!(
                open_entry(&key, &tampered),
                Err(VaultError::Authentication),
                "bit {} of byte {} went unnoticed",
                bit,
                byte
            );
        }
    }
}

#[test]
fn truncated_entry_is_malformed() {
    let key = test_key();
    let sealed = seal_entry(&key, b"pw").unwrap();
    for len in 0..12 {
        assert_eq!(
            open_entry(&key, &sealed[..len]),
            Err(VaultError::MalformedEntry)
        );
    }
    // Long enough for a nonce but too short for a tag: framing is intact,
    // authentication is what fails.
    assert_eq!(
        open_entry(&key, &sealed[..13]),
        Err(VaultError::Authentication)
    );
}

#[test]
fn wrong_key_fails_authentication() {
    let key = test_key();
    let other = kdf::derive(b"not the passphrase", &[7u8; 16]).unwrap();
    let sealed = seal_entry(&key, b"payload").unwrap();
    assert_eq!(open_entry(&other, &sealed), Err(VaultError::Authentication));
}
