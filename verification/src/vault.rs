//! Key derivation and authenticated encryption of vault payloads.
//!
//! A payload is sealed as `base64(nonce ‖ ciphertext ‖ tag)`: a fresh
//! 12-byte random nonce, AES-256-GCM ciphertext of the plaintext, and the
//! 16-byte authentication tag appended by the cipher. The key is derived
//! from a master passphrase and a 16-byte salt with Argon2id.

use vstd::prelude::*;
use vstd::string::StringSliceAdditionalSpecFns;
use aes_gcm::{Aes256Gcm, Key, Nonce};
use aead::{Aead, KeyInit};
use argon2::Argon2;
use base64::Engine;
use rand::RngCore;
use crate::CryptoError;

verus! {

/// A credential record. The cryptographic core never looks inside one:
/// callers serialize a collection of entries and hand the bytes to
/// [`encrypt`], and deserialize what [`decrypt`] returns.
#[derive(Debug, Clone)]
pub struct VaultEntry {
    pub id: String,
    pub title: String,
    pub username: String,
    pub password: String,
    pub url: Option<String>,
    pub notes: Option<String>,
    pub created_at: i64,
    pub modified_at: i64,
}

#[verifier::external_type_specification]
#[verifier::external_body]
pub struct ExArgon2Error(argon2::Error);

#[verifier::external_type_specification]
#[verifier::external_body]
pub struct ExAeadError(aead::Error);

#[verifier::external_type_specification]
#[verifier::external_body]
pub struct ExDecodeError(base64::DecodeError);

/// The 32-byte key that Argon2id, with the `argon2` crate's default
/// parameters, derives from a passphrase and a salt.
pub uninterp spec fn argon2id_of(password: Seq<u8>, salt: Seq<u8>) -> Seq<u8>;

/// The AES-256-GCM ciphertext (tag appended) of a plaintext under a key and
/// a 12-byte nonce.
pub uninterp spec fn aes_gcm_seal(key: Seq<u8>, nonce: Seq<u8>, plaintext: Seq<u8>) -> Seq<u8>;

/// What AES-256-GCM decryption returns for a ciphertext under a key and a
/// 12-byte nonce: the plaintext when the tag verifies, nothing otherwise.
pub uninterp spec fn aes_gcm_open(key: Seq<u8>, nonce: Seq<u8>, ciphertext: Seq<u8>) -> Option<Seq<u8>>;

/// The standard-alphabet, padded base64 encoding of a byte string.
pub uninterp spec fn b64_of(bytes: Seq<u8>) -> Seq<char>;

/// What standard-alphabet base64 decoding returns: the decoded bytes, or
/// nothing when the input is not a valid encoding.
pub uninterp spec fn b64_decode_of(s: Seq<char>) -> Option<Seq<u8>>;

/// Relies on `argon2::Argon2::hash_password_into` with `Argon2::default()`
/// (Argon2id, the crate's default cost parameters) and a 32-byte output
/// buffer. The key is a function of the passphrase and salt alone, and the
/// call succeeds exactly when the salt is 8 to 2^32 - 1 bytes long and the
/// passphrase at most 2^32 - 1 bytes.
#[verifier::external_body]
fn argon2_derive(password: &[u8], salt: &[u8]) -> (r: Result<[u8; 32], argon2::Error>)
    ensures
        r matches Ok(k) ==> k@ == argon2id_of(password@, salt@),
        r is Ok <==> (8 <= salt@.len() <= 0xFFFF_FFFF && password@.len() <= 0xFFFF_FFFF),
{
    let mut key = [0u8; 32];
    match Argon2::default().hash_password_into(password, salt, &mut key) {
        Ok(()) => Ok(key),
        Err(e) => Err(e),
    }
}

/// Relies on `aead::Aead::encrypt` for `aes_gcm::Aes256Gcm` (the cipher is
/// built from the key with `KeyInit::new`, which cannot fail for a 32-byte
/// key): the result is the AES-256-GCM ciphertext with the 16-byte tag
/// appended, a function of key, nonce and plaintext alone; decrypting it
/// under the same key and nonce gives the plaintext back. The call fails
/// exactly when the plaintext is longer than the mode's limit of 2^36 bytes.
#[verifier::external_body]
fn aes_gcm_encrypt(key: &[u8; 32], nonce: &[u8], plaintext: &[u8]) -> (r: Result<
    Vec<u8>,
    aead::Error,
>)
    requires
        nonce@.len() == 12,
    ensures
        r matches Ok(c) ==> c@ == aes_gcm_seal(key@, nonce@, plaintext@),
        r matches Ok(c) ==> c@.len() == plaintext@.len() + 16,
        r matches Ok(c) ==> aes_gcm_open(key@, nonce@, c@) == Some(plaintext@),
        r is Ok <==> plaintext@.len() <= 0x10_0000_0000,
{
    let cipher = Aes256Gcm::new(Key::<Aes256Gcm>::from_slice(key));
    cipher.encrypt(Nonce::from_slice(nonce), plaintext)
}

/// Relies on `aead::Aead::decrypt` for `aes_gcm::Aes256Gcm`: verifies the
/// appended tag and returns the decrypted plaintext, or an error when the
/// tag does not verify; a deterministic function of key, nonce and
/// ciphertext.
#[verifier::external_body]
fn aes_gcm_decrypt(key: &[u8; 32], nonce: &[u8], ciphertext: &[u8]) -> (r: Result<
    Vec<u8>,
    aead::Error,
>)
    requires
        nonce@.len() == 12,
    ensures
        r matches Ok(p) ==> aes_gcm_open(key@, nonce@, ciphertext@) == Some(p@),
        r is Err ==> aes_gcm_open(key@, nonce@, ciphertext@) is None,
{
    let cipher = Aes256Gcm::new(Key::<Aes256Gcm>::from_slice(key));
    cipher.decrypt(Nonce::from_slice(nonce), ciphertext)
}

/// Relies on `base64::Engine::encode` with the `STANDARD` engine: the
/// padded, standard-alphabet base64 of the bytes; decoding the result gives
/// exactly the input bytes back.
#[verifier::external_body]
fn b64_encode(bytes: &[u8]) -> (r: String)
    ensures
        r@ == b64_of(bytes@),
        b64_decode_of(r@) == Some(bytes@),
{
    base64::engine::general_purpose::STANDARD.encode(bytes)
}

/// Relies on `base64::Engine::decode` with the `STANDARD` engine: returns
/// the decoded bytes, and an error exactly when the input is not a valid
/// padded, standard-alphabet base64 string.
#[verifier::external_body]
fn b64_decode(s: &str) -> (r: Result<Vec<u8>, base64::DecodeError>)
    ensures
        r matches Ok(v) ==> b64_decode_of(s@) == Some(v@),
        r is Err ==> b64_decode_of(s@) is None,
{
    base64::engine::general_purpose::STANDARD.decode(s)
}

/// Relies on `rand::RngCore::fill_bytes` for `rand::rngs::OsRng`: fills the
/// buffer from the operating system's secure random source. Nothing is
/// assumed of the values; only the length is stated.
#[verifier::external_body]
fn random_bytes(n: usize) -> (r: Vec<u8>)
    ensures
        r@.len() == n,
{
    let mut buf = vec![0u8; n];
    rand::rngs::OsRng.fill_bytes(&mut buf);
    buf
}

/// The sealed form of a plaintext under a key and a nonce:
/// `base64(nonce ‖ ciphertext ‖ tag)`.
pub open spec fn sealed_blob(key: Seq<u8>, nonce: Seq<u8>, plaintext: Seq<u8>) -> Seq<char> {
    b64_of(nonce + aes_gcm_seal(key, nonce, plaintext))
}

/// What opening a sealed string under a key yields: the plaintext when the
/// string decodes and the tag verifies, and otherwise the error that
/// [`decrypt`] reports. A wrong key and a tampered ciphertext are
/// indistinguishable: both end in `AuthenticationError`.
pub open spec fn open_sealed(sealed: Seq<char>, key: Seq<u8>) -> Result<Seq<u8>, CryptoError> {
    match b64_decode_of(sealed) {
        None => Err(CryptoError::FormatError),
        Some(data) => if data.len() < 12 {
            Err(CryptoError::FormatError)
        } else {
            match aes_gcm_open(key, data.subrange(0, 12), data.subrange(12, data.len() as int)) {
                None => Err(CryptoError::AuthenticationError),
                Some(p) => Ok(p),
            }
        },
    }
}

/// Derive the 32-byte encryption key from a master passphrase and a salt
/// with Argon2id. Deterministic: the key is a function of the passphrase
/// and salt alone, so the same inputs always recover the same key.
pub fn derive_key(master_password: &str, salt: &[u8]) -> (r: Result<[u8; 32], CryptoError>)
    ensures
        r matches Ok(k) ==> k@ == argon2id_of(master_password.spec_bytes(), salt@),
        r is Ok <==> (8 <= salt@.len() <= 0xFFFF_FFFF && master_password.spec_bytes().len()
            <= 0xFFFF_FFFF),
        r matches Err(e) ==> e == CryptoError::DerivationError,
{
    match argon2_derive(master_password.as_bytes(), salt) {
        Ok(k) => Ok(k),
        Err(_) => Err(CryptoError::DerivationError),
    }
}

/// Two key derivations from the same passphrase and salt agree: derivation
/// is deterministic, which is what lets a user re-enter the passphrase
/// later and recover the key.
pub proof fn lemma_derive_key_deterministic(
    password: Seq<u8>,
    salt: Seq<u8>,
    k1: Seq<u8>,
    k2: Seq<u8>,
)
    requires
        k1 == argon2id_of(password, salt),
        k2 == argon2id_of(password, salt),
    ensures
        k1 == k2,
{
}

fn append_bytes(dst: &mut Vec<u8>, src: &[u8])
    ensures
        final(dst)@ == old(dst)@ + src@,
{
    let mut i: usize = 0;
    while i < src.len()
        invariant
            0 <= i <= src@.len(),
            dst@ == old(dst)@ + src@.subrange(0, i as int),
        decreases src@.len() - i,
    {
        dst.push(src[i]);
        proof {
            assert(src@.subrange(0, i + 1) =~= src@.subrange(0, i as int).push(src@[i as int]));
        }
        i = i + 1;
    }
    proof {
        assert(src@.subrange(0, src@.len() as int) =~= src@);
    }
}

/// Seal a plaintext under a key with a caller-supplied 12-byte nonce.
/// The result is exactly `base64(nonce ‖ ciphertext ‖ tag)`, and opening it
/// under the same key gives the plaintext back. [`encrypt`] is the
/// production entry point, which draws the nonce fresh from the secure
/// random source.
pub fn seal_with_nonce(plaintext: &[u8], key: &[u8; 32], nonce: &Vec<u8>) -> (r: Result<
    String,
    CryptoError,
>)
    requires
        nonce@.len() == 12,
    ensures
        r matches Ok(s) ==> s@ == sealed_blob(key@, nonce@, plaintext@),
        r matches Ok(s) ==> open_sealed(s@, key@) == Result::<Seq<u8>, CryptoError>::Ok(
            plaintext@,
        ),
        r is Ok <==> plaintext@.len() <= 0x10_0000_0000,
        r matches Err(e) ==> e == CryptoError::EncryptionError,
{
    match aes_gcm_encrypt(key, nonce.as_slice(), plaintext) {
        Ok(ciphertext) => {
            let mut data: Vec<u8> = Vec::new();
            append_bytes(&mut data, nonce.as_slice());
            append_bytes(&mut data, ciphertext.as_slice());
            let encoded = b64_encode(data.as_slice());
            proof {
                assert(data@.subrange(0, 12) =~= nonce@);
                assert(data@.subrange(12, data@.len() as int) =~= ciphertext@);
            }
            Ok(encoded)
        },
        Err(_) => Err(CryptoError::EncryptionError),
    }
}

/// Encrypt a plaintext under a key: a fresh random 12-byte nonce, AES-256-GCM,
/// and base64 over `nonce ‖ ciphertext ‖ tag`. The nonce is drawn fresh on
/// every call, so two calls on the same inputs yield different strings; each
/// result opens back to the plaintext under the same key.
pub fn encrypt(plaintext: &[u8], key: &[u8; 32]) -> (r: Result<String, CryptoError>)
    ensures
        r matches Ok(s) ==> open_sealed(s@, key@) == Result::<Seq<u8>, CryptoError>::Ok(
            plaintext@,
        ),
        r matches Ok(s) ==> exists|n: Seq<u8>|
            n.len() == 12 && s@ == sealed_blob(key@, n, plaintext@),
        r is Ok <==> plaintext@.len() <= 0x10_0000_0000,
        r matches Err(e) ==> e == CryptoError::EncryptionError,
{
    let nonce = random_bytes(12);
    let r = seal_with_nonce(plaintext, key, &nonce);
    proof {
        if r is Ok {
            assert(r->Ok_0@ == sealed_blob(key@, nonce@, plaintext@));
        }
    }
    r
}

/// Open a sealed string under a key: decode the base64, split off the
/// 12-byte nonce, decrypt and verify the tag. Fails with `FormatError` on
/// input that is not base64 or decodes to fewer than 12 bytes, and with
/// `AuthenticationError` when the tag does not verify — a wrong key and
/// tampered data are deliberately indistinguishable.
pub fn decrypt(encoded: &str, key: &[u8; 32]) -> (r: Result<Vec<u8>, CryptoError>)
    ensures
        r matches Ok(p) ==> open_sealed(encoded@, key@) == Result::<Seq<u8>, CryptoError>::Ok(p@),
        r matches Err(e) ==> open_sealed(encoded@, key@) == Result::<Seq<u8>, CryptoError>::Err(e),
{
    let data = match b64_decode(encoded) {
        Ok(d) => d,
        Err(_) => {
            return Err(CryptoError::FormatError);
        },
    };
    if data.len() < 12 {
        return Err(CryptoError::FormatError);
    }
    let (nonce_part, cipher_part) = data.as_slice().split_at(12);
    match aes_gcm_decrypt(key, nonce_part, cipher_part) {
        Ok(p) => Ok(p),
        Err(_) => Err(CryptoError::AuthenticationError),
    }
}

/// Generate a fresh 16-byte salt from the secure random source. A vault
/// keeps one salt for its whole life: it is stored in plaintext beside the
/// ciphertext and fed back into [`derive_key`] on every open.
pub fn generate_salt() -> (r: Vec<u8>)
    ensures
        r@.len() == 16,
{
    random_bytes(16)
}

} // verus!
