use aes_gcm_siv::aead::Aead;
use aes_gcm_siv::{Aes256GcmSiv, KeyInit, Nonce};
use notes_vault::cipher::{decrypt, encrypt, encrypt_with};
use notes_vault::errors::CryptoError;
use notes_vault::kdf::derive_key;

#[test]
fn round_trip_preserves_note() {
    let frame = encrypt("hello world", "pw1").unwrap();
    assert_eq!(decrypt(&frame, "pw1").unwrap(), "hello world");
}

#[test]
fn round_trip_empty_note() {
    let frame = encrypt("", "pw1").unwrap();
    assert_eq!(frame.len(), 48);
    assert_eq!(decrypt(&frame, "pw1").unwrap(), "");
}

#[test]
fn round_trip_multibyte_text() {
    let text = "garçon — メモ 📝";
    let frame = encrypt(text, "pw1").unwrap();
    assert_eq!(decrypt(&frame, "pw1").unwrap(), text);
}

#[test]
fn encrypt_twice_differs() {
    let a = encrypt("same note", "same password").unwrap();
    let b = encrypt("same note", "same password").unwrap();
    assert_ne!(a, b);
    assert_ne!(a[..12], b[..12], "nonces should be freshly random");
    assert_ne!(a[12..32], b[12..32], "salts should be freshly random");
}

#[test]
fn wrong_password_fails() {
    let frame = encrypt("secret", "p1").unwrap();
    assert_eq!(
        decrypt(&frame, "p2").unwrap_err(),
        CryptoError::DecryptionFailure
    );
}

#[test]
fn truncated_frame_fails() {
    assert_eq!(
        decrypt(&[1u8, 2, 3], "pw").unwrap_err(),
        CryptoError::DecryptionFailure
    );
    assert_eq!(decrypt(b"", "pw").unwrap_err(), CryptoError::DecryptionFailure);
    // a header alone, with no ciphertext or tag behind it
    assert_eq!(
        decrypt(&[0u8; 32], "pw").unwrap_err(),
        CryptoError::DecryptionFailure
    );
}

#[test]
fn tampered_ciphertext_fails() {
    let mut frame = encrypt("integrity matters", "pw").unwrap();
    let last = frame.len() - 1;
    frame[last] ^= 0x01;
    assert_eq!(
        decrypt(&frame, "pw").unwrap_err(),
        CryptoError::DecryptionFailure
    );
}

#[test]
fn tampered_first_ciphertext_byte_fails() {
    let mut frame = encrypt("integrity matters", "pw").unwrap();
    frame[32] ^= 0x80;
    assert_eq!(
        decrypt(&frame, "pw").unwrap_err(),
        CryptoError::DecryptionFailure
    );
}

#[test]
fn sealed_frame_is_deterministic_given_nonce_and_salt() {
    let nonce = [1u8; 12];
    let salt = [2u8; 20];
    let a = encrypt_with(&nonce, &salt, "note", "pw").unwrap();
    let b = encrypt_with(&nonce, &salt, "note", "pw").unwrap();
    assert_eq!(a, b);
    assert_eq!(&a[..12], &nonce);
    assert_eq!(&a[12..32], &salt);
    assert_eq!(decrypt(&a, "pw").unwrap(), "note");
}

#[test]
fn non_text_plaintext_is_an_encoding_failure() {
    // Build, with the cipher itself, a frame whose authenticated
    // plaintext is not valid UTF-8: decryption authenticates it and
    // then rejects it as text.
    let nonce = [9u8; 12];
    let salt = [7u8; 20];
    let key = derive_key(&salt, "pw");
    let cipher = Aes256GcmSiv::new_from_slice(&key).unwrap();
    let body = cipher
        .encrypt(Nonce::from_slice(&nonce), &[0xffu8, 0xfe][..])
        .unwrap();
    let mut frame = Vec::new();
    frame.extend_from_slice(&nonce);
    frame.extend_from_slice(&salt);
    frame.extend_from_slice(&body);
    assert_eq!(
        decrypt(&frame, "pw").unwrap_err(),
        CryptoError::EncodingFailure
    );
}

#[test]
fn crypto_error_messages() {
    assert_eq!(CryptoError::DecryptionFailure.message(), "decryption failed");
    assert_eq!(
        CryptoError::EncodingFailure.message(),
        "decrypted bytes are not valid text"
    );
    assert_eq!(CryptoError::EncryptionFailure.message(), "encryption failed");
    assert_eq!(CryptoError::RandomnessFailure.message(), "random source failed");
}
