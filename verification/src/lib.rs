//! Cryptographic core of a password vault: key derivation from a master
//! passphrase, authenticated encryption of vault payloads, and secure
//! password generation.

pub mod generator;
pub mod vault;

use vstd::prelude::*;

verus! {

/// Errors of the cryptographic core.
#[derive(Debug, Clone, Copy, PartialEq, Eq, Structural)]
pub enum CryptoError {
    /// The key-derivation function rejected its inputs (a contract
    /// violation, such as a salt that is too short).
    DerivationError,
    /// The input is not valid base64, or too short to hold a nonce.
    FormatError,
    /// The authentication tag did not verify: wrong key or tampered data.
    AuthenticationError,
    /// The cipher refused to encrypt (plaintext beyond the mode's limit).
    EncryptionError,
}

} // verus!
