//! Deterministic signing identity derived from the password.
//!
//! The keypair is re-derived on every use from the stable deployment
//! context (the salt) and the password; no secret is ever stored.
//! The server holds only the public half, configured out-of-band, and
//! verifies write signatures against it.

use crate::kdf::key_of;
use ed25519_dalek::Signer;
use vstd::prelude::*;
use vstd::string::StringSliceAdditionalSpecFns;
use vstd::utf8::encode_utf8;

verus! {

/// Bytes of a signature.
pub const SIGNATURE_SIZE: usize = 64;

/// Bytes of a public key.
pub const PUBLIC_KEY_SIZE: usize = 32;

/// What expanding a 32-byte seed to its Ed25519 public key returns:
/// 32 bytes, a pure function of the seed.
pub uninterp spec fn ed25519_public_of(seed: Seq<u8>) -> Seq<u8>;

/// What Ed25519 signing returns for a seed and a message: 64 bytes, a
/// pure function of the two.
pub uninterp spec fn ed25519_signature_of(seed: Seq<u8>, message: Seq<u8>) -> Seq<u8>;

/// Whether a 64-byte signature verifies over a message under a
/// 32-byte public key: a pure function of the three byte strings.
pub uninterp spec fn ed25519_verifies(
    public_key: Seq<u8>,
    message: Seq<u8>,
    signature: Seq<u8>,
) -> bool;

/// Relies on `ed25519_dalek::PublicKey::from(&SecretKey)`: expanding
/// a 32-byte seed to its public key is deterministic, and
/// `SecretKey::from_bytes` accepts every 32-byte input.
#[verifier::external_body]
fn ed25519_public(seed: &[u8; 32]) -> (r: [u8; 32])
    ensures
        r@ == ed25519_public_of(seed@),
        r@.len() == 32,
{
    let secret = ed25519_dalek::SecretKey::from_bytes(seed.as_slice()).unwrap();
    ed25519_dalek::PublicKey::from(&secret).to_bytes()
}

/// Relies on `ed25519_dalek::Keypair::sign`: Ed25519 signing is a
/// deterministic function of the seed and the message, and the
/// signature it produces verifies, under `verify_strict`, against the
/// seed's own public key and the same message.
#[verifier::external_body]
fn ed25519_sign(seed: &[u8; 32], message: &[u8]) -> (r: [u8; 64])
    ensures
        r@ == ed25519_signature_of(seed@, message@),
        r@.len() == 64,
        ed25519_verifies(ed25519_public_of(seed@), message@, r@),
{
    let secret = ed25519_dalek::SecretKey::from_bytes(seed.as_slice()).unwrap();
    let public = ed25519_dalek::PublicKey::from(&secret);
    ed25519_dalek::Keypair { secret, public }.sign(message).to_bytes()
}

/// Relies on `ed25519_dalek::PublicKey::from_bytes`,
/// `Signature::from_bytes` and `PublicKey::verify_strict`: whether a
/// 64-byte signature verifies over a message under a 32-byte public
/// key depends on those three byte strings alone; a key or signature
/// that does not decode, and a check that fails, verify as false.
#[verifier::external_body]
pub(crate) fn ed25519_verify(public_key: &[u8], message: &[u8], signature: &[u8]) -> (r: bool)
    requires
        public_key@.len() == PUBLIC_KEY_SIZE,
        signature@.len() == SIGNATURE_SIZE,
    ensures
        r == ed25519_verifies(public_key@, message@, signature@),
{
    let decoded_key = match ed25519_dalek::PublicKey::from_bytes(public_key) {
        Ok(k) => k,
        Err(_) => return false,
    };
    let decoded_sig = match ed25519_dalek::Signature::from_bytes(signature) {
        Ok(s) => s,
        Err(_) => return false,
    };
    decoded_key.verify_strict(message, &decoded_sig).is_ok()
}

/// The seed of the signing keypair for a context salt and a password:
/// the slow hash of the password under the salt's UTF-8 bytes.
pub open spec fn signing_seed(context_salt: Seq<char>, password: Seq<char>) -> Seq<u8> {
    key_of(encode_utf8(context_salt), password)
}

/// A signing keypair derived from a context salt and a password.  The
/// secret half is the 32-byte derivation seed; it never leaves the
/// client.  The public half is the one value the server is configured
/// with.
pub struct SigningKeypair {
    secret: [u8; 32],
    public: [u8; 32],
}

impl SigningKeypair {
    /// Well-formedness: the public half is the one the secret seed
    /// expands to.
    pub closed spec fn wf(&self) -> bool {
        self.public@ == ed25519_public_of(self.secret@)
    }

    /// The secret seed, as a mathematical value.
    pub closed spec fn seed(&self) -> Seq<u8> {
        self.secret@
    }

    /// Returns the public half.
    pub fn public_bytes(&self) -> (r: [u8; 32])
        requires
            self.wf(),
        ensures
            r@ == ed25519_public_of(self.seed()),
    {
        self.public
    }

    /// Signs a message with the keypair.  The signature verifies
    /// against the keypair's public half and the same message.
    pub fn sign(&self, message: &[u8]) -> (r: [u8; 64])
        ensures
            r@ == ed25519_signature_of(self.seed(), message@),
            r@.len() == SIGNATURE_SIZE,
            ed25519_verifies(ed25519_public_of(self.seed()), message@, r@),
    {
        ed25519_sign(&self.secret, message)
    }
}

/// Derives the signing keypair for a context salt and a password.
/// Deterministic: the same inputs always regenerate the identical
/// keypair, so the server can hold a single static public key.
pub fn derive_keypair(context_salt: &str, password: &str) -> (r: SigningKeypair)
    ensures
        r.seed() == signing_seed(context_salt@, password@),
        r.wf(),
        ed25519_public_of(r.seed()).len() == PUBLIC_KEY_SIZE,
{
    let secret = crate::kdf::derive_key(context_salt.as_bytes(), password);
    let public = ed25519_public(&secret);
    SigningKeypair { secret, public }
}

/// Signs a message with the keypair derived from the context salt and
/// the password.
pub fn sign(message: &[u8], salt: &str, password: &str) -> (r: [u8; 64])
    ensures
        r@ == ed25519_signature_of(signing_seed(salt@, password@), message@),
        r@.len() == SIGNATURE_SIZE,
        ed25519_verifies(ed25519_public_of(signing_seed(salt@, password@)), message@, r@),
{
    let keypair = derive_keypair(salt, password);
    keypair.sign(message)
}

/// Returns the public key of the keypair derived from the context
/// salt and the password: what the server operator configures, and
/// what a client reports to diagnose a password or configuration
/// mismatch.
pub fn public_key(salt: &str, password: &str) -> (r: [u8; 32])
    ensures
        r@ == ed25519_public_of(signing_seed(salt@, password@)),
{
    let keypair = derive_keypair(salt, password);
    keypair.public_bytes()
}

/// Keypair derivation is a pure function of its inputs: two keypairs
/// derived from the same context salt and password have identical
/// seeds and identical public halves.
pub proof fn lemma_derive_keypair_deterministic(
    context_salt: Seq<char>,
    password: Seq<char>,
    a: SigningKeypair,
    b: SigningKeypair,
)
    requires
        a.wf(),
        b.wf(),
        a.seed() == signing_seed(context_salt, password),
        b.seed() == signing_seed(context_salt, password),
    ensures
        a.seed() == b.seed(),
        ed25519_public_of(a.seed()) == ed25519_public_of(b.seed()),
{
}

} // verus!
