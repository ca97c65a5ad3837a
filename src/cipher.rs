//! Passphrase-derived authenticated encryption of byte payloads.
//!
//! A sealed container is `salt (16) ‖ nonce (12) ‖ ciphertext ‖ tag (16)`.
//! The key is PBKDF2-HMAC-SHA256 of the 9-byte passphrase and the salt, and
//! the payload is sealed with AES-256-GCM under that key and the nonce, with
//! no associated data.

use aes_gcm::aead::{Aead, KeyInit};
use aes_gcm::{Aes256Gcm, Key, Nonce};
use vstd::prelude::*;
use vstd::slice::slice_subrange;
use vstd::utf8::encode_utf8;

verus! {

/// Byte length a passphrase must have.
pub const PASSPHRASE_LEN: usize = 9;

/// Byte length of the random salt that starts a container.
pub const SALT_LEN: usize = 16;

/// Byte length of the random nonce that follows the salt.
pub const NONCE_LEN: usize = 12;

/// Byte length of the authentication tag that ends a container.
pub const TAG_LEN: usize = 16;

/// Byte length of the derived key.
pub const KEY_LEN: usize = 32;

/// Shortest container that can be valid: salt, nonce and tag.
pub const MIN_CONTAINER_LEN: usize = 44;

/// PBKDF2 iteration count used to derive the key.
pub const KDF_ITERATIONS: u32 = 100000;

/// Longest plaintext that AES-GCM seals (2^36 bytes).
pub const MAX_PLAINTEXT_LEN: u64 = 68719476736;

/// Why an operation failed.
#[derive(Debug, Clone, Copy, PartialEq, Eq, Structural)]
pub enum CryptoError {
    /// The passphrase is not exactly nine bytes long.
    InvalidPassphrase,
    /// The container is too short to hold a salt, a nonce and a tag.
    InvalidContainer,
    /// The cipher could not be set up with the derived key. Never returned:
    /// the derived key always has the size the cipher takes.
    CipherInitFailure,
    /// Sealing failed, or no randomness could be drawn for it.
    EncryptionFailure,
    /// The authentication tag did not verify: wrong passphrase or altered data.
    DecryptionFailed,
}

/// aes_gcm::Error, the opaque failure of sealing or opening.
#[verifier::external_type_specification]
#[verifier::external_body]
pub struct ExAeadError(aes_gcm::Error);

/// getrandom::Error, the failure to draw random bytes.
#[verifier::external_type_specification]
#[verifier::external_body]
pub struct ExRandomError(getrandom::Error);

/// The PBKDF2-HMAC-SHA256 output (32 bytes) for a password, salt and round count.
pub uninterp spec fn pbkdf2_sha256_of(password: Seq<u8>, salt: Seq<u8>, rounds: u32) -> Seq<u8>;

/// The AES-256-GCM sealing (ciphertext then tag) of a plaintext, with no
/// associated data.
pub uninterp spec fn aes256gcm_seal_of(key: Seq<u8>, nonce: Seq<u8>, plaintext: Seq<u8>) -> Seq<u8>;

/// The AES-256-GCM opening of a sealed text: the plaintext when the tag
/// verifies, `None` when it does not.
pub uninterp spec fn aes256gcm_open_of(key: Seq<u8>, nonce: Seq<u8>, sealed: Seq<u8>) -> Option<
    Seq<u8>,
>;

/// Relies on pbkdf2::pbkdf2_hmac with sha2::Sha256: fills a 32-byte key,
/// a function of the password, salt and round count alone.
#[verifier::external_body]
fn derive_key(password: &[u8], salt: &[u8], rounds: u32) -> (r: Vec<u8>)
    ensures
        r@ == pbkdf2_sha256_of(password@, salt@, rounds),
        r@.len() == KEY_LEN,
{
    let mut key = vec![0u8; KEY_LEN];
    pbkdf2::pbkdf2_hmac::<sha2::Sha256>(password, salt, rounds, &mut key);
    key
}

/// Relies on aes_gcm::Aes256Gcm's Aead::encrypt with no associated data:
/// it fails exactly when the plaintext is longer than 2^36 bytes, and
/// otherwise returns the ciphertext, as long as the plaintext, followed by
/// the 16-byte tag.
#[verifier::external_body]
fn aead_seal(key: &[u8], nonce: &[u8], plaintext: &[u8]) -> (r: Result<Vec<u8>, aes_gcm::Error>)
    requires
        key@.len() == KEY_LEN,
        nonce@.len() == NONCE_LEN,
    ensures
        r is Ok <==> plaintext@.len() <= MAX_PLAINTEXT_LEN,
        r matches Ok(c) ==> c@ == aes256gcm_seal_of(key@, nonce@, plaintext@) && c@.len()
            == plaintext@.len() + TAG_LEN,
{
    let cipher = Aes256Gcm::new(Key::<Aes256Gcm>::from_slice(key));
    cipher.encrypt(Nonce::from_slice(nonce), plaintext)
}

/// Relies on aes_gcm::Aes256Gcm's Aead::decrypt with no associated data:
/// it returns the plaintext, the sealed text without its 16-byte tag, when
/// the tag verifies and fails otherwise, and it opens whatever
/// Aead::encrypt sealed under the same key and nonce.
#[verifier::external_body]
fn aead_open(key: &[u8], nonce: &[u8], sealed: &[u8]) -> (r: Result<Vec<u8>, aes_gcm::Error>)
    requires
        key@.len() == KEY_LEN,
        nonce@.len() == NONCE_LEN,
    ensures
        match r {
            Ok(p) => aes256gcm_open_of(key@, nonce@, sealed@) == Some(p@),
            Err(_) => aes256gcm_open_of(key@, nonce@, sealed@) is None,
        },
        r matches Ok(p) ==> p@.len() + TAG_LEN == sealed@.len(),
        forall|p: Seq<u8>|
            p.len() <= MAX_PLAINTEXT_LEN && sealed@ == #[trigger] aes256gcm_seal_of(key@, nonce@, p)
                ==> (r is Ok && r->Ok_0@ == p),
{
    let cipher = Aes256Gcm::new(Key::<Aes256Gcm>::from_slice(key));
    cipher.decrypt(Nonce::from_slice(nonce), sealed)
}

/// Relies on getrandom::getrandom: fills `N` bytes from the operating
/// system's secure random source, or fails. Nothing is known of the bytes.
#[verifier::external_body]
fn random_bytes<const N: usize>() -> (r: Result<[u8; N], getrandom::Error>) {
    let mut buf = [0u8; N];
    match getrandom::getrandom(&mut buf) {
        Ok(()) => Ok(buf),
        Err(e) => Err(e),
    }
}

/// The key derived from a passphrase and a salt.
pub open spec fn key_of(passphrase: Seq<u8>, salt: Seq<u8>) -> Seq<u8> {
    pbkdf2_sha256_of(passphrase, salt, KDF_ITERATIONS)
}

/// The container that sealing `plaintext` under `passphrase` with the
/// given salt and nonce produces.
pub open spec fn container_of(
    plaintext: Seq<u8>,
    passphrase: Seq<u8>,
    salt: Seq<u8>,
    nonce: Seq<u8>,
) -> Seq<u8> {
    salt + nonce + aes256gcm_seal_of(key_of(passphrase, salt), nonce, plaintext)
}

/// `container` is a valid sealing of `plaintext` under `passphrase` with
/// some salt and nonce of the right sizes.
pub open spec fn is_sealing_of(
    container: Seq<u8>,
    plaintext: Seq<u8>,
    passphrase: Seq<u8>,
    salt: Seq<u8>,
    nonce: Seq<u8>,
) -> bool {
    &&& passphrase.len() == PASSPHRASE_LEN
    &&& salt.len() == SALT_LEN
    &&& nonce.len() == NONCE_LEN
    &&& plaintext.len() <= MAX_PLAINTEXT_LEN
    &&& container.len() == plaintext.len() + MIN_CONTAINER_LEN
    &&& container == container_of(plaintext, passphrase, salt, nonce)
}

/// What sealing with a given salt and nonce returns.
pub open spec fn seal_result(
    plaintext: Seq<u8>,
    passphrase: Seq<u8>,
    salt: Seq<u8>,
    nonce: Seq<u8>,
) -> Result<Seq<u8>, CryptoError> {
    if passphrase.len() != PASSPHRASE_LEN {
        Err(CryptoError::InvalidPassphrase)
    } else if plaintext.len() > MAX_PLAINTEXT_LEN {
        Err(CryptoError::EncryptionFailure)
    } else {
        Ok(container_of(plaintext, passphrase, salt, nonce))
    }
}

/// What opening a container returns.
pub open spec fn open_result(container: Seq<u8>, passphrase: Seq<u8>) -> Result<
    Seq<u8>,
    CryptoError,
> {
    if passphrase.len() != PASSPHRASE_LEN {
        Err(CryptoError::InvalidPassphrase)
    } else if container.len() < MIN_CONTAINER_LEN {
        Err(CryptoError::InvalidContainer)
    } else {
        match aes256gcm_open_of(
            key_of(passphrase, container.subrange(0, 16)),
            container.subrange(16, 28),
            container.subrange(28, container.len() as int),
        ) {
            Some(p) => Ok(p),
            None => Err(CryptoError::DecryptionFailed),
        }
    }
}

/// A byte-vector result seen as a result over sequences.
pub open spec fn bytes_result(r: Result<Vec<u8>, CryptoError>) -> Result<Seq<u8>, CryptoError> {
    match r {
        Ok(v) => Ok(v@),
        Err(e) => Err(e),
    }
}

/// Checks that a passphrase is nine bytes long and returns those bytes.
pub fn passphrase_to_seed(passphrase: &str) -> (r: Result<[u8; 9], CryptoError>)
    ensures
        encode_utf8(passphrase@).len() == PASSPHRASE_LEN <==> r is Ok,
        r matches Ok(seed) ==> seed@ == encode_utf8(passphrase@),
        r matches Err(e) ==> e == CryptoError::InvalidPassphrase,
{
    let bytes = passphrase.as_bytes();
    if bytes.len() != PASSPHRASE_LEN {
        return Err(CryptoError::InvalidPassphrase);
    }
    let seed: [u8; 9] = [
        bytes[0],
        bytes[1],
        bytes[2],
        bytes[3],
        bytes[4],
        bytes[5],
        bytes[6],
        bytes[7],
        bytes[8],
    ];
    assert(seed@ =~= bytes@);
    Ok(seed)
}

/// Seals `plaintext` under `passphrase` with the given salt and nonce.
///
/// Encryption draws these two values at random; taking them as arguments
/// makes the result a function of its inputs.
pub fn encrypt_with(
    plaintext: &[u8],
    passphrase: &str,
    salt: &[u8; 16],
    nonce: &[u8; 12],
) -> (r: Result<Vec<u8>, CryptoError>)
    ensures
        bytes_result(r) == seal_result(plaintext@, encode_utf8(passphrase@), salt@, nonce@),
        r matches Ok(c) ==> is_sealing_of(
            c@,
            plaintext@,
            encode_utf8(passphrase@),
            salt@,
            nonce@,
        ),
{
    let seed = match passphrase_to_seed(passphrase) {
        Ok(seed) => seed,
        Err(e) => return Err(e),
    };
    let key = derive_key(seed.as_slice(), salt.as_slice(), KDF_ITERATIONS);
    let sealed = match aead_seal(key.as_slice(), nonce.as_slice(), plaintext) {
        Ok(sealed) => sealed,
        Err(_) => return Err(CryptoError::EncryptionFailure),
    };
    let mut container: Vec<u8> = Vec::new();
    container.extend_from_slice(salt.as_slice());
    container.extend_from_slice(nonce.as_slice());
    container.extend_from_slice(sealed.as_slice());
    assert(container@ =~= container_of(plaintext@, encode_utf8(passphrase@), salt@, nonce@));
    Ok(container)
}

/// Seals `plaintext` under `passphrase` with a fresh random salt and nonce.
pub fn encrypt(plaintext: &[u8], passphrase: &str) -> (r: Result<Vec<u8>, CryptoError>)
    ensures
        encode_utf8(passphrase@).len() != PASSPHRASE_LEN ==> r == Err::<
            Vec<u8>,
            CryptoError,
        >(CryptoError::InvalidPassphrase),
        encode_utf8(passphrase@).len() == PASSPHRASE_LEN && plaintext@.len() > MAX_PLAINTEXT_LEN
            ==> r == Err::<Vec<u8>, CryptoError>(CryptoError::EncryptionFailure),
        r matches Ok(c) ==> exists|salt: Seq<u8>, nonce: Seq<u8>|
            is_sealing_of(c@, plaintext@, encode_utf8(passphrase@), salt, nonce),
        r matches Err(e) ==> e == CryptoError::InvalidPassphrase || e
            == CryptoError::EncryptionFailure,
        r matches Err(e) && e == CryptoError::InvalidPassphrase ==> encode_utf8(passphrase@).len()
            != PASSPHRASE_LEN,
{
    if let Err(e) = passphrase_to_seed(passphrase) {
        return Err(e);
    }
    let salt: [u8; 16] = match random_bytes() {
        Ok(bytes) => bytes,
        Err(_) => return Err(CryptoError::EncryptionFailure),
    };
    let nonce: [u8; 12] = match random_bytes() {
        Ok(bytes) => bytes,
        Err(_) => return Err(CryptoError::EncryptionFailure),
    };
    encrypt_with(plaintext, passphrase, &salt, &nonce)
}

/// Opens a container sealed under `passphrase`.
///
/// Fails with `InvalidPassphrase` when the passphrase is not nine bytes,
/// with `InvalidContainer` when the container is shorter than 44 bytes, and
/// with `DecryptionFailed` when the tag does not verify. Whatever
/// `encrypt_with` sealed under the passphrase opens to its plaintext.
pub fn decrypt(container: &[u8], passphrase: &str) -> (r: Result<Vec<u8>, CryptoError>)
    ensures
        bytes_result(r) == open_result(container@, encode_utf8(passphrase@)),
        r matches Ok(p) ==> p@.len() + MIN_CONTAINER_LEN == container@.len(),
        forall|p: Seq<u8>, salt: Seq<u8>, nonce: Seq<u8>|
            #[trigger] is_sealing_of(container@, p, encode_utf8(passphrase@), salt, nonce) ==> (r is Ok
                && r->Ok_0@ == p),
{
    let seed = match passphrase_to_seed(passphrase) {
        Ok(seed) => seed,
        Err(e) => return Err(e),
    };
    if container.len() < MIN_CONTAINER_LEN {
        return Err(CryptoError::InvalidContainer);
    }
    let salt = slice_subrange(container, 0, SALT_LEN);
    let nonce = slice_subrange(container, SALT_LEN, SALT_LEN + NONCE_LEN);
    let sealed = slice_subrange(container, SALT_LEN + NONCE_LEN, container.len());
    let key = derive_key(seed.as_slice(), salt, KDF_ITERATIONS);
    let r = match aead_open(key.as_slice(), nonce, sealed) {
        Ok(plaintext) => Ok(plaintext),
        Err(_) => Err(CryptoError::DecryptionFailed),
    };
    proof {
        let k = encode_utf8(passphrase@);
        assert forall|p: Seq<u8>, s: Seq<u8>, n: Seq<u8>|
            #[trigger] is_sealing_of(container@, p, k, s, n) implies (r is Ok && r->Ok_0@ == p) by {
            assert(salt@ =~= s);
            assert(nonce@ =~= n);
            assert(sealed@ =~= aes256gcm_seal_of(key_of(k, s), n, p));
        }
    }
    r
}

} // verus!
