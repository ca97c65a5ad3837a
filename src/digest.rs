//! One-way digests of passphrases and PINs for local equality checks.
//!
//! A passphrase digest is SHA-256 over the passphrase's UTF-8 bytes; a PIN
//! digest is SHA-256 over a fixed domain tag followed by the PIN's UTF-8
//! bytes. Both are rendered as lowercase hex.

use crate::hex::{encode, hex_of, lemma_hex_of_injective};
use sha2::Digest;
use vstd::prelude::*;
use vstd::utf8::{encode_utf8, encode_utf8_decode_utf8};

verus! {

/// The SHA-256 digest of a byte string.
pub uninterp spec fn sha256_of(data: Seq<u8>) -> Seq<u8>;

/// Relies on sha2::Sha256::digest: the 32-byte SHA-256 digest of `data`.
#[verifier::external_body]
fn sha256(data: &[u8]) -> (r: Vec<u8>)
    ensures
        r@ == sha256_of(data@),
        r@.len() == 32,
{
    sha2::Sha256::digest(data).to_vec()
}

/// The domain tag `selona_pin_` that precedes a PIN before hashing.
pub open spec fn pin_tag() -> Seq<u8> {
    seq![115u8, 101u8, 108u8, 111u8, 110u8, 97u8, 95u8, 112u8, 105u8, 110u8, 95u8]
}

/// The bytes hashed for a passphrase.
pub open spec fn passphrase_input(passphrase: Seq<char>) -> Seq<u8> {
    encode_utf8(passphrase)
}

/// The bytes hashed for a PIN: the domain tag, then the PIN's bytes.
pub open spec fn pin_input(pin: Seq<char>) -> Seq<u8> {
    pin_tag() + encode_utf8(pin)
}

/// The hex digest stored for a passphrase.
pub open spec fn passphrase_digest(passphrase: Seq<char>) -> Seq<char> {
    hex_of(sha256_of(passphrase_input(passphrase)))
}

/// The hex digest stored for a PIN.
pub open spec fn pin_digest(pin: Seq<char>) -> Seq<char> {
    hex_of(sha256_of(pin_input(pin)))
}

/// Whether `stored` is the digest of `passphrase`.
pub open spec fn passphrase_verifies(passphrase: Seq<char>, stored: Seq<char>) -> bool {
    passphrase_digest(passphrase) == stored
}

/// Whether `stored` is the digest of `pin`.
pub open spec fn pin_verifies(pin: Seq<char>, stored: Seq<char>) -> bool {
    pin_digest(pin) == stored
}

/// Hashes a passphrase for storage: lowercase hex of SHA-256 over its bytes.
pub fn hash_passphrase(passphrase: String) -> (r: String)
    ensures
        r@ == passphrase_digest(passphrase@),
        r@.len() == 64,
{
    let digest = sha256(passphrase.as_str().as_bytes());
    encode(digest.as_slice())
}

/// Whether `hash` is the stored digest of `passphrase`.
pub fn verify_passphrase(passphrase: String, hash: String) -> (r: bool)
    ensures
        r == passphrase_verifies(passphrase@, hash@),
{
    let computed_hash = hash_passphrase(passphrase);
    computed_hash == hash
}

/// Hashes a PIN for storage: lowercase hex of SHA-256 over the domain tag
/// followed by the PIN's bytes.
pub fn hash_pin(pin: String) -> (r: String)
    ensures
        r@ == pin_digest(pin@),
        r@.len() == 64,
{
    let mut salted: Vec<u8> = vec![
        115u8, 101u8, 108u8, 111u8, 110u8, 97u8, 95u8, 112u8, 105u8, 110u8, 95u8,
    ];
    salted.extend_from_slice(pin.as_str().as_bytes());
    assert(salted@ =~= pin_input(pin@));
    let digest = sha256(salted.as_slice());
    encode(digest.as_slice())
}

/// Whether `hash` is the stored digest of `pin`.
pub fn verify_pin(pin: String, hash: String) -> (r: bool)
    ensures
        r == pin_verifies(pin@, hash@),
{
    let computed_hash = hash_pin(pin);
    computed_hash == hash
}

/// Hashing is a function of the text alone: equal texts give equal
/// digests, as a passphrase and as a PIN.
pub proof fn lemma_digests_deterministic(s1: Seq<char>, s2: Seq<char>)
    requires
        s1 == s2,
    ensures
        passphrase_digest(s1) == passphrase_digest(s2),
        pin_digest(s1) == pin_digest(s2),
{
}

/// For every text, the bytes hashed as a PIN differ from the bytes hashed
/// as a passphrase: the domain tag makes them eleven bytes longer. (That
/// the two digests then differ rests on SHA-256, which is not modelled.)
pub proof fn lemma_pin_input_separated(s: Seq<char>)
    ensures
        pin_input(s) != passphrase_input(s),
        pin_input(s).len() == passphrase_input(s).len() + 11,
{
}

/// Distinct texts are hashed from distinct bytes, in both contexts.
pub proof fn lemma_distinct_texts_distinct_inputs(s1: Seq<char>, s2: Seq<char>)
    requires
        s1 != s2,
    ensures
        passphrase_input(s1) != passphrase_input(s2),
        pin_input(s1) != pin_input(s2),
{
    encode_utf8_decode_utf8(s1);
    encode_utf8_decode_utf8(s2);
    if pin_input(s1) == pin_input(s2) {
        assert(encode_utf8(s1) =~= pin_input(s1).subrange(11, pin_input(s1).len() as int));
        assert(encode_utf8(s2) =~= pin_input(s2).subrange(11, pin_input(s2).len() as int));
    }
}

/// A passphrase verifies against its own digest; against the digest of
/// another passphrase it verifies exactly when the two SHA-256 digests of
/// their bytes coincide.
pub proof fn lemma_passphrase_verify(s: Seq<char>, s2: Seq<char>)
    ensures
        passphrase_verifies(s, passphrase_digest(s)),
        passphrase_verifies(s, passphrase_digest(s2)) <==> sha256_of(passphrase_input(s))
            == sha256_of(passphrase_input(s2)),
{
    lemma_hex_of_injective(sha256_of(passphrase_input(s)), sha256_of(passphrase_input(s2)));
}

/// A PIN verifies against its own digest; against the digest of another
/// PIN it verifies exactly when the two SHA-256 digests of their tagged
/// bytes coincide.
pub proof fn lemma_pin_verify(s: Seq<char>, s2: Seq<char>)
    ensures
        pin_verifies(s, pin_digest(s)),
        pin_verifies(s, pin_digest(s2)) <==> sha256_of(pin_input(s)) == sha256_of(pin_input(s2)),
{
    lemma_hex_of_injective(sha256_of(pin_input(s)), sha256_of(pin_input(s2)));
}

} // verus!
