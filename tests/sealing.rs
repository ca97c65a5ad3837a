use aes_gcm::aead::{Aead, KeyInit};
use aes_gcm::{Aes256Gcm, Key, Nonce};
use selona::cipher::{decrypt, encrypt, encrypt_with, CryptoError, MIN_CONTAINER_LEN};

const KEY: &str = "a3f7b2c1e";

#[test]
fn round_trip_hello_selona() {
    let plaintext = b"Hello, Selona!";
    let container = encrypt(plaintext, KEY).unwrap();
    assert_eq!(container.len(), plaintext.len() + 44);
    assert_eq!(decrypt(&container, KEY).unwrap(), plaintext.to_vec());
    assert_eq!(decrypt(&container, "wrong1234"), Err(CryptoError::DecryptionFailed));
}

#[test]
fn round_trip_empty_plaintext() {
    let container = encrypt(&[], KEY).unwrap();
    assert_eq!(container.len(), MIN_CONTAINER_LEN);
    assert_eq!(decrypt(&container, KEY).unwrap(), Vec::<u8>::new());
}

#[test]
fn encryption_is_randomized() {
    let plaintext = b"same input";
    let a = encrypt(plaintext, KEY).unwrap();
    let b = encrypt(plaintext, KEY).unwrap();
    assert_ne!(a, b);
    assert_ne!(a[0..16], b[0..16]);
    assert_eq!(decrypt(&a, KEY).unwrap(), plaintext.to_vec());
    assert_eq!(decrypt(&b, KEY).unwrap(), plaintext.to_vec());
}

#[test]
fn passphrase_length_gate() {
    assert_eq!(encrypt(b"x", "short"), Err(CryptoError::InvalidPassphrase));
    assert_eq!(encrypt(b"x", "toolongpassphrase"), Err(CryptoError::InvalidPassphrase));
    let container = vec![0u8; 64];
    assert_eq!(decrypt(&container, "short"), Err(CryptoError::InvalidPassphrase));
    assert_eq!(decrypt(&container, "toolongpassphrase"), Err(CryptoError::InvalidPassphrase));
    // the passphrase is checked before the container
    assert_eq!(decrypt(&[], "short"), Err(CryptoError::InvalidPassphrase));
}

#[test]
fn short_containers_are_invalid() {
    for len in [0usize, 1, 28, 43] {
        let container = vec![7u8; len];
        assert_eq!(decrypt(&container, KEY), Err(CryptoError::InvalidContainer));
    }
}

#[test]
fn garbage_container_of_minimum_length_fails_authentication() {
    let container = vec![0u8; 44];
    assert_eq!(decrypt(&container, KEY), Err(CryptoError::DecryptionFailed));
}

#[test]
fn wrong_passphrase_is_rejected() {
    let container = encrypt(b"secret payload", KEY).unwrap();
    assert_eq!(decrypt(&container, "a3f7b2c1f"), Err(CryptoError::DecryptionFailed));
    assert_eq!(decrypt(&container, "wrong1234"), Err(CryptoError::DecryptionFailed));
}

#[test]
fn tampering_is_detected() {
    let plaintext = b"Hello, Selona!";
    let container = encrypt(plaintext, KEY).unwrap();
    let last = container.len() - 1;
    // a bit in the salt, the nonce, the ciphertext and the tag
    for (index, bit) in [(0usize, 0u8), (20, 3), (30, 7), (last, 1)] {
        let mut altered = container.clone();
        altered[index] ^= 1 << bit;
        assert_eq!(decrypt(&altered, KEY), Err(CryptoError::DecryptionFailed));
    }
    let mut truncated = container.clone();
    truncated.pop();
    assert_eq!(decrypt(&truncated, KEY), Err(CryptoError::DecryptionFailed));
}

#[test]
fn sealing_with_given_salt_and_nonce_is_deterministic() {
    let salt = [1u8; 16];
    let nonce = [2u8; 12];
    let a = encrypt_with(b"payload", KEY, &salt, &nonce).unwrap();
    let b = encrypt_with(b"payload", KEY, &salt, &nonce).unwrap();
    assert_eq!(a, b);
    assert_eq!(a.len(), 7 + 44);
    assert_eq!(a[0..16], salt);
    assert_eq!(a[16..28], nonce);
    assert_ne!(a[28..35], b"payload"[..]);
    assert_eq!(decrypt(&a, KEY).unwrap(), b"payload".to_vec());
}

#[test]
fn sealing_with_given_salt_checks_passphrase() {
    let r = encrypt_with(b"payload", "short", &[0u8; 16], &[0u8; 12]);
    assert_eq!(r, Err(CryptoError::InvalidPassphrase));
}

#[test]
fn different_salts_give_different_containers() {
    let nonce = [2u8; 12];
    let a = encrypt_with(b"payload", KEY, &[1u8; 16], &nonce).unwrap();
    let b = encrypt_with(b"payload", KEY, &[3u8; 16], &nonce).unwrap();
    assert_ne!(a[28..], b[28..]);
}

#[test]
fn container_matches_pbkdf2_and_aes_gcm_directly() {
    let salt = [9u8; 16];
    let nonce = [4u8; 12];
    let plaintext = b"Hello, Selona!";

    let mut key = [0u8; 32];
    pbkdf2::pbkdf2_hmac::<sha2::Sha256>(KEY.as_bytes(), &salt, 100_000, &mut key);
    let cipher = Aes256Gcm::new(Key::<Aes256Gcm>::from_slice(&key));
    let sealed = cipher.encrypt(Nonce::from_slice(&nonce), &plaintext[..]).unwrap();
    let mut expected = Vec::new();
    expected.extend_from_slice(&salt);
    expected.extend_from_slice(&nonce);
    expected.extend_from_slice(&sealed);

    assert_eq!(encrypt_with(plaintext, KEY, &salt, &nonce).unwrap(), expected);
    assert_eq!(decrypt(&expected, KEY).unwrap(), plaintext.to_vec());
}
