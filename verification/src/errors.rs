//! Failure taxonomy of the protocol.
//!
//! Every failure is local to one operation and leaves the stored note
//! untouched; nothing is retried automatically.

use vstd::prelude::*;

verus! {

/// A failure of client-side encryption or decryption.
#[derive(Clone, Copy, Debug, PartialEq, Eq, Structural)]
pub enum CryptoError {
    /// The frame is truncated or the authentication tag does not
    /// verify: the password is wrong or the data was corrupted.
    DecryptionFailure,
    /// The authenticated plaintext is not valid UTF-8 text.
    EncodingFailure,
    /// The plaintext exceeds the cipher's size bound.
    EncryptionFailure,
    /// The secure random source failed to supply fresh bytes.
    RandomnessFailure,
}

impl CryptoError {
    /// A short description of the failure, for display by a caller.
    pub fn message(&self) -> (r: &'static str)
        ensures
            r@ == self.message_spec(),
    {
        match self {
            CryptoError::DecryptionFailure => "decryption failed",
            CryptoError::EncodingFailure => "decrypted bytes are not valid text",
            CryptoError::EncryptionFailure => "encryption failed",
            CryptoError::RandomnessFailure => "random source failed",
        }
    }

    /// The description `message` returns for each variant.
    pub open spec fn message_spec(&self) -> Seq<char> {
        match self {
            CryptoError::DecryptionFailure => "decryption failed"@,
            CryptoError::EncodingFailure => "decrypted bytes are not valid text"@,
            CryptoError::EncryptionFailure => "encryption failed"@,
            CryptoError::RandomnessFailure => "random source failed"@,
        }
    }
}

/// A transport failure: the server answered outside the success
/// range, and the status is surfaced verbatim.
#[derive(Clone, Copy, Debug, PartialEq, Eq, Structural)]
pub struct TransportFailure {
    /// The status code the server answered with.
    pub status: u16,
}

/// A reason the server rejects a write; every variant leaves the
/// store untouched.
#[derive(Clone, Copy, Debug, PartialEq, Eq, Structural)]
pub enum WriteError {
    /// The request carries no signature.
    MissingSignature,
    /// The signature field is not well-formed hex.
    MalformedSignatureHex,
    /// The decoded signature is not exactly 64 bytes.
    MalformedSignatureLength,
    /// The configured public key is not well-formed hex for 32 bytes.
    InvalidPublicKey,
    /// The signature does not verify over the stored and new frames.
    SignatureVerificationFailure,
}

impl WriteError {
    /// A short description of the rejection, for display by a caller.
    pub fn message(&self) -> (r: &'static str)
        ensures
            r@ == self.message_spec(),
    {
        match self {
            WriteError::MissingSignature => "missing signature",
            WriteError::MalformedSignatureHex => "signature is not valid hex",
            WriteError::MalformedSignatureLength => "signature has the wrong length",
            WriteError::InvalidPublicKey => "configured public key is invalid",
            WriteError::SignatureVerificationFailure => "signature verification failed",
        }
    }

    /// The description `message` returns for each variant.
    pub open spec fn message_spec(&self) -> Seq<char> {
        match self {
            WriteError::MissingSignature => "missing signature"@,
            WriteError::MalformedSignatureHex => "signature is not valid hex"@,
            WriteError::MalformedSignatureLength => "signature has the wrong length"@,
            WriteError::InvalidPublicKey => "configured public key is invalid"@,
            WriteError::SignatureVerificationFailure => "signature verification failed"@,
        }
    }
}

} // verus!
