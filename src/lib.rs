//! Passphrase-based sealing of byte payloads and one-way hashing of
//! passphrases and PINs, with their behaviour stated and proved.

pub mod hex;
pub mod digest;
pub mod cipher;
