//! Authenticated encryption of the note body into a self-contained
//! wire frame.
//!
//! A frame is `nonce(12) ‖ salt(20) ‖ ciphertext-with-tag`.  Both the
//! nonce and the salt are freshly random on every encryption, so no
//! two encryptions ever reuse a key/nonce pair: the key itself is
//! re-derived from the fresh salt each time.  An empty stored value is
//! the caller's "no note yet" sentinel and never reaches this module's
//! decryption path.

use crate::errors::CryptoError;
use crate::kdf::{derive_key, key_of};
use aes_gcm_siv::aead::Aead;
use aes_gcm_siv::{Aes256GcmSiv, KeyInit, Nonce};
use vstd::prelude::*;
use vstd::string::StringSliceAdditionalSpecFns;
use vstd::utf8::{decode_utf8, encode_utf8, encode_utf8_decode_utf8, encode_utf8_valid_utf8,
    valid_utf8};

verus! {

/// Bytes of the random nonce at the head of a frame.
pub const NONCE_SIZE: usize = 12;

/// Bytes of the random key-derivation salt following the nonce.
pub const SALT_SIZE: usize = 20;

/// Bytes of the authentication tag appended to the ciphertext.
pub const TAG_SIZE: usize = 16;

/// Bytes of a frame before the ciphertext begins.
pub const HEADER_SIZE: usize = NONCE_SIZE + SALT_SIZE;

/// The cipher's bound on one plaintext.
pub const MAX_PLAINTEXT_BYTES: u64 = 0x10_0000_0000;

/// What the AEAD seal returns for a key, nonce and plaintext: the
/// ciphertext with its tag appended, a pure function of the three.
pub uninterp spec fn aead_sealed(key: Seq<u8>, nonce: Seq<u8>, plaintext: Seq<u8>) -> Seq<u8>;

/// What the AEAD open returns for a key, nonce and ciphertext body:
/// the authenticated plaintext, or nothing when the tag does not
/// verify; a pure function of the three.
pub uninterp spec fn aead_opened(key: Seq<u8>, nonce: Seq<u8>, body: Seq<u8>) -> Option<Seq<u8>>;

/// Relies on `Aes256GcmSiv::encrypt` (AES-256-GCM-SIV, no associated
/// data): deterministic in key, nonce and plaintext; the result is the
/// ciphertext with a 16-byte tag appended; it fails exactly when the
/// plaintext is longer than the cipher's bound; opening the result
/// under the same key and nonce yields the plaintext back.
#[verifier::external_body]
fn aead_encrypt(key: &[u8], nonce: &[u8], plaintext: &[u8]) -> (r: Option<Vec<u8>>)
    requires
        key@.len() == 32,
        nonce@.len() == NONCE_SIZE,
    ensures
        r is Some <==> plaintext@.len() <= MAX_PLAINTEXT_BYTES,
        r is Some ==> r.unwrap()@ == aead_sealed(key@, nonce@, plaintext@),
        r is Some ==> r.unwrap()@.len() == plaintext@.len() + TAG_SIZE,
        r is Some ==> aead_opened(key@, nonce@, r.unwrap()@) == Some(plaintext@),
{
    let cipher = Aes256GcmSiv::new_from_slice(key).unwrap();
    cipher.encrypt(Nonce::from_slice(nonce), plaintext).ok()
}

/// Relies on `Aes256GcmSiv::decrypt`: deterministic in key, nonce and
/// body; succeeds only when the 16-byte tag at the end of the body
/// authenticates the rest under the key and nonce, and then returns
/// the decrypted bytes; a body shorter than the tag is rejected.
#[verifier::external_body]
fn aead_decrypt(key: &[u8], nonce: &[u8], body: &[u8]) -> (r: Option<Vec<u8>>)
    requires
        key@.len() == 32,
        nonce@.len() == NONCE_SIZE,
    ensures
        r is Some <==> aead_opened(key@, nonce@, body@) is Some,
        r is Some ==> r.unwrap()@ == aead_opened(key@, nonce@, body@).unwrap(),
        r is Some ==> body@.len() == r.unwrap()@.len() + TAG_SIZE,
        body@.len() < TAG_SIZE ==> r is None,
{
    let cipher = Aes256GcmSiv::new_from_slice(key).unwrap();
    cipher.decrypt(Nonce::from_slice(nonce), body).ok()
}

/// Relies on `getrandom::getrandom`: on success the returned bytes
/// come from a cryptographically secure source.  Nothing is assumed
/// of their values, and two calls may return anything.
#[verifier::external_body]
fn random_bytes(n: usize) -> (r: Option<Vec<u8>>)
    ensures
        r is Some ==> r.unwrap()@.len() == n,
{
    let mut buffer = vec![0u8; n];
    match getrandom::getrandom(&mut buffer) {
        Ok(()) => Some(buffer),
        Err(_) => None,
    }
}

/// Relies on `String::from_utf8` (std): succeeds exactly on valid
/// UTF-8, decoding the bytes to the character string they encode.
#[verifier::external_body]
fn bytes_to_string(bytes: Vec<u8>) -> (r: Option<String>)
    ensures
        r is Some <==> valid_utf8(bytes@),
        r is Some ==> r.unwrap()@ == decode_utf8(bytes@),
{
    String::from_utf8(bytes).ok()
}

/// The nonce carried in a frame.
pub open spec fn frame_nonce(wire: Seq<u8>) -> Seq<u8> {
    wire.subrange(0, NONCE_SIZE as int)
}

/// The key-derivation salt carried in a frame.
pub open spec fn frame_salt(wire: Seq<u8>) -> Seq<u8> {
    wire.subrange(NONCE_SIZE as int, HEADER_SIZE as int)
}

/// The ciphertext-with-tag region of a frame.
pub open spec fn frame_body(wire: Seq<u8>) -> Seq<u8> {
    wire.subrange(HEADER_SIZE as int, wire.len() as int)
}

/// The frame an encryption with the given nonce and salt produces:
/// the two random values in the clear, then the note sealed under the
/// key derived from the salt and the password.
pub open spec fn sealed_frame(
    nonce: Seq<u8>,
    salt: Seq<u8>,
    password: Seq<char>,
    plaintext: Seq<char>,
) -> Seq<u8> {
    nonce + salt + aead_sealed(key_of(salt, password), nonce, encode_utf8(plaintext))
}

/// What decrypting a wire frame under a password yields: the note
/// text, or the exact failure.  A truncated frame or a tag that does
/// not verify (wrong password, corrupted data) is a decryption
/// failure; authenticated bytes that are not UTF-8 are an encoding
/// failure.
pub open spec fn decrypt_result(wire: Seq<u8>, password: Seq<char>) -> Result<
    Seq<char>,
    CryptoError,
> {
    if wire.len() < HEADER_SIZE {
        Err(CryptoError::DecryptionFailure)
    } else {
        match aead_opened(key_of(frame_salt(wire), password), frame_nonce(wire), frame_body(wire)) {
            Some(note) => if valid_utf8(note) {
                Ok(decode_utf8(note))
            } else {
                Err(CryptoError::EncodingFailure)
            },
            None => Err(CryptoError::DecryptionFailure),
        }
    }
}

/// Decrypts a wire frame with the password: splits off the nonce and
/// salt, re-derives the key, opens the body and reads it as text.
pub fn decrypt(ciphertext: &[u8], password: &str) -> (r: Result<String, CryptoError>)
    ensures
        r is Ok <==> decrypt_result(ciphertext@, password@) is Ok,
        r is Ok ==> r.unwrap()@ == decrypt_result(ciphertext@, password@).unwrap(),
        r is Err ==> r.unwrap_err() == decrypt_result(ciphertext@, password@)->Err_0,
{
    if ciphertext.len() < HEADER_SIZE {
        return Err(CryptoError::DecryptionFailure);
    }
    let (nonce, rest) = ciphertext.split_at(NONCE_SIZE);
    let (salt, body) = rest.split_at(SALT_SIZE);
    proof {
        assert(nonce@ =~= frame_nonce(ciphertext@));
        assert(salt@ =~= frame_salt(ciphertext@));
        assert(body@ =~= frame_body(ciphertext@));
    }
    let key = derive_key(salt, password);
    match aead_decrypt(key.as_slice(), nonce, body) {
        Some(note) => match bytes_to_string(note) {
            Some(text) => Ok(text),
            None => Err(CryptoError::EncodingFailure),
        },
        None => Err(CryptoError::DecryptionFailure),
    }
}

/// Builds the frame for one encryption whose fresh nonce and salt are
/// given: derives the key from the salt and the password, seals the
/// note and lays out `nonce ‖ salt ‖ ciphertext`.  Decrypting the
/// returned frame with the same password yields the note back.
pub fn encrypt_with(nonce: &[u8], salt: &[u8], plaintext: &str, password: &str) -> (r: Result<
    Vec<u8>,
    CryptoError,
>)
    requires
        nonce@.len() == NONCE_SIZE,
        salt@.len() == SALT_SIZE,
    ensures
        r is Ok <==> encode_utf8(plaintext@).len() <= MAX_PLAINTEXT_BYTES,
        r is Ok ==> r.unwrap()@ == sealed_frame(nonce@, salt@, password@, plaintext@),
        r is Ok ==> r.unwrap()@.len() == HEADER_SIZE + TAG_SIZE + encode_utf8(plaintext@).len(),
        r is Ok ==> decrypt_result(r.unwrap()@, password@) == Ok::<Seq<char>, CryptoError>(
            plaintext@,
        ),
        r is Err ==> r.unwrap_err() == CryptoError::EncryptionFailure,
{
    let key = derive_key(salt, password);
    let note_bytes = plaintext.as_bytes();
    proof {
        assert(note_bytes@ == encode_utf8(plaintext@));
    }
    match aead_encrypt(key.as_slice(), nonce, note_bytes) {
        Some(body) => {
            let mut frame: Vec<u8> = Vec::new();
            frame.extend_from_slice(nonce);
            frame.extend_from_slice(salt);
            frame.extend_from_slice(body.as_slice());
            proof {
                assert(frame@ =~= sealed_frame(nonce@, salt@, password@, plaintext@));
                assert(frame_nonce(frame@) =~= nonce@);
                assert(frame_salt(frame@) =~= salt@);
                assert(frame_body(frame@) =~= body@);
                encode_utf8_valid_utf8(plaintext@);
                encode_utf8_decode_utf8(plaintext@);
            }
            Ok(frame)
        },
        None => Err(CryptoError::EncryptionFailure),
    }
}

/// Encrypts the note with a password: draws a fresh 12-byte nonce and
/// a fresh 20-byte salt from the secure random source, then seals the
/// note into a self-contained frame.  On success the frame decrypts,
/// under the same password, to exactly the note that was encrypted.
pub fn encrypt(plaintext: &str, password: &str) -> (r: Result<Vec<u8>, CryptoError>)
    ensures
        r is Ok ==> r.unwrap()@.len() == HEADER_SIZE + TAG_SIZE + encode_utf8(plaintext@).len(),
        r is Ok ==> decrypt_result(r.unwrap()@, password@) == Ok::<Seq<char>, CryptoError>(
            plaintext@,
        ),
        r is Ok ==> frame_body(r.unwrap()@) == aead_sealed(
            key_of(frame_salt(r.unwrap()@), password@),
            frame_nonce(r.unwrap()@),
            encode_utf8(plaintext@),
        ),
        r is Err ==> r.unwrap_err() == CryptoError::RandomnessFailure || (r.unwrap_err()
            == CryptoError::EncryptionFailure && encode_utf8(plaintext@).len()
            > MAX_PLAINTEXT_BYTES),
{
    let nonce = match random_bytes(NONCE_SIZE) {
        Some(v) => v,
        None => {
            return Err(CryptoError::RandomnessFailure);
        },
    };
    let salt = match random_bytes(SALT_SIZE) {
        Some(v) => v,
        None => {
            return Err(CryptoError::RandomnessFailure);
        },
    };
    let r = encrypt_with(nonce.as_slice(), salt.as_slice(), plaintext, password);
    proof {
        if r is Ok {
            assert(frame_nonce(r.unwrap()@) =~= nonce@);
            assert(frame_salt(r.unwrap()@) =~= salt@);
        }
    }
    r
}

} // verus!
