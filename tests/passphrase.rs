use selona::cipher::{passphrase_to_seed, CryptoError};

#[test]
fn test_passphrase_to_seed() {
    let seed = passphrase_to_seed("a3f7b2c1e").unwrap();
    assert_eq!(seed.len(), 9);
    assert_eq!(&seed, b"a3f7b2c1e");
}

#[test]
fn test_invalid_passphrase_length() {
    assert!(passphrase_to_seed("short").is_err());
    assert!(passphrase_to_seed("toolongpassphrase").is_err());
}

#[test]
fn passphrase_length_is_counted_in_bytes() {
    // five two-byte characters: ten bytes
    assert_eq!(passphrase_to_seed("ééééé"), Err(CryptoError::InvalidPassphrase));
    // seven one-byte characters and one two-byte character: nine bytes
    let seed = passphrase_to_seed("abcdefgé").unwrap();
    assert_eq!(&seed, "abcdefgé".as_bytes());
}

#[test]
fn empty_passphrase_is_rejected() {
    assert_eq!(passphrase_to_seed(""), Err(CryptoError::InvalidPassphrase));
}
