use base64::Engine;
use vault_core::vault::{decrypt, derive_key, encrypt, generate_salt};
use vault_core::CryptoError;

#[test]
fn test_encrypt_decrypt() {
    let plaintext = b"Hello, World!";
    let password = "super_secret_password";
    let salt = generate_salt();
    let key = derive_key(password, &salt).unwrap();

    let encrypted = encrypt(plaintext, &key).unwrap();
    let decrypted = decrypt(&encrypted, &key).unwrap();

    assert_eq!(plaintext, decrypted.as_slice());
}

#[test]
fn test_wrong_password() {
    let plaintext = b"Hello, World!";
    let salt = generate_salt();
    let key1 = derive_key("password1", &salt).unwrap();
    let key2 = derive_key("password2", &salt).unwrap();

    let encrypted = encrypt(plaintext, &key1).unwrap();
    let result = decrypt(&encrypted, &key2);

    assert!(result.is_err());
}

#[test]
fn test_salt_length_and_freshness() {
    let s1 = generate_salt();
    let s2 = generate_salt();
    assert_eq!(s1.len(), 16);
    assert_eq!(s2.len(), 16);
    // Two draws from the secure random source coincide only with
    // negligible probability.
    assert_ne!(s1, s2);
}

#[test]
fn test_derive_key_deterministic() {
    let salt = vec![7u8; 16];
    let k1 = derive_key("correct horse battery staple", &salt).unwrap();
    let k2 = derive_key("correct horse battery staple", &salt).unwrap();
    assert_eq!(k1, k2);
}

#[test]
fn test_derive_key_depends_on_password_and_salt() {
    let salt_a = vec![7u8; 16];
    let salt_b = vec![8u8; 16];
    let base = derive_key("passphrase", &salt_a).unwrap();
    let other_password = derive_key("passphrasf", &salt_a).unwrap();
    let other_salt = derive_key("passphrase", &salt_b).unwrap();
    assert_ne!(base, other_password);
    assert_ne!(base, other_salt);
    assert_ne!(&base[..], "passphrase".as_bytes());
}

#[test]
fn test_derive_key_rejects_short_salt() {
    let salt = vec![1u8; 7];
    assert_eq!(
        derive_key("passphrase", &salt),
        Err(CryptoError::DerivationError)
    );
}

#[test]
fn test_seal_is_nondeterministic_but_both_open() {
    let plaintext = b"the same message";
    let key = [42u8; 32];
    let first = encrypt(plaintext, &key).unwrap();
    let second = encrypt(plaintext, &key).unwrap();
    // Fresh nonces: the same plaintext and key never give the same blob.
    assert_ne!(first, second);
    assert_eq!(decrypt(&first, &key).unwrap(), plaintext);
    assert_eq!(decrypt(&second, &key).unwrap(), plaintext);
}

#[test]
fn test_wire_format_lengths() {
    let plaintext = b"Hello, World!";
    let key = [3u8; 32];
    let sealed = encrypt(plaintext, &key).unwrap();
    let raw = base64::engine::general_purpose::STANDARD
        .decode(&sealed)
        .unwrap();
    // nonce (12) + ciphertext (same length as the plaintext) + tag (16)
    assert_eq!(raw.len(), 12 + plaintext.len() + 16);
}

#[test]
fn test_tamper_detection_every_bit() {
    let plaintext = b"attack at dawn";
    let key = [9u8; 32];
    let sealed = encrypt(plaintext, &key).unwrap();
    let raw = base64::engine::general_purpose::STANDARD
        .decode(&sealed)
        .unwrap();
    // Flip each single bit of the ciphertext-and-tag portion in turn.
    for byte in 12..raw.len() {
        for bit in 0..8 {
            let mut tampered = raw.clone();
            tampered[byte] ^= 1u8 << bit;
            let reencoded = base64::engine::general_purpose::STANDARD.encode(&tampered);
            assert_eq!(
                decrypt(&reencoded, &key),
                Err(CryptoError::AuthenticationError)
            );
        }
    }
}

#[test]
fn test_wrong_key_is_authentication_error() {
    let plaintext = b"payload";
    let key1 = [1u8; 32];
    let key2 = [2u8; 32];
    let sealed = encrypt(plaintext, &key1).unwrap();
    assert_eq!(
        decrypt(&sealed, &key2),
        Err(CryptoError::AuthenticationError)
    );
}

#[test]
fn test_decrypt_rejects_bad_base64() {
    let key = [0u8; 32];
    assert_eq!(
        decrypt("this is not base64!!!", &key),
        Err(CryptoError::FormatError)
    );
}

#[test]
fn test_decrypt_rejects_short_input() {
    let key = [0u8; 32];
    // "AAAA" decodes to three bytes, fewer than one nonce.
    assert_eq!(decrypt("AAAA", &key), Err(CryptoError::FormatError));
    assert_eq!(decrypt("", &key), Err(CryptoError::FormatError));
}

#[test]
fn test_empty_plaintext_round_trip() {
    let key = [5u8; 32];
    let sealed = encrypt(b"", &key).unwrap();
    assert_eq!(decrypt(&sealed, &key).unwrap(), b"");
}

#[test]
fn test_passphrase_scenario() {
    let salt = [0xA5u8; 16];
    let key = derive_key("correct horse battery staple", &salt).unwrap();
    let sealed = encrypt(b"Hello, World!", &key).unwrap();
    assert_eq!(decrypt(&sealed, &key).unwrap(), b"Hello, World!");

    let wrong_key = derive_key("wrong password", &salt).unwrap();
    assert_eq!(
        decrypt(&sealed, &wrong_key),
        Err(CryptoError::AuthenticationError)
    );
}
