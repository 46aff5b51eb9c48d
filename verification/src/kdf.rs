//! Slow, salted derivation of a 32-byte key from a password.
//!
//! The same derivation feeds two distinct uses: with a fresh random
//! salt it yields the symmetric key of one encryption, and with the
//! stable deployment context as salt it yields the seed of the
//! signing keypair.

use vstd::prelude::*;
use vstd::string::StringSliceAdditionalSpecFns;
use vstd::utf8::encode_utf8;

verus! {

/// Cost exponent of the derivation: CPU/memory cost is `2^12`.
const SCRYPT_LOG_N: u8 = 12;

/// Block size of the derivation.
const SCRYPT_R: u32 = 8;

/// Parallelism of the derivation.
const SCRYPT_P: u32 = 1;

/// What `scrypt::scrypt` returns for a password and a salt at the
/// library's fixed cost parameters: 32 bytes, a pure function of the
/// two inputs.
pub uninterp spec fn scrypt_key(password: Seq<u8>, salt: Seq<u8>) -> Seq<u8>;

/// Relies on `scrypt::scrypt` at the fixed, interactive-grade cost
/// parameters above: a deterministic, memory-hard function of
/// password and salt alone.  The parameters are valid and the output
/// buffer is 32 bytes, so neither call can fail.
#[verifier::external_body]
fn scrypt_derive(password: &[u8], salt: &[u8]) -> (r: [u8; 32])
    ensures
        r@ == scrypt_key(password@, salt@),
        r@.len() == 32,
{
    let params = scrypt::Params::new(SCRYPT_LOG_N, SCRYPT_R, SCRYPT_P, 32).unwrap();
    let mut buffer = [0u8; 32];
    scrypt::scrypt(password, salt, &params, &mut buffer).unwrap();
    buffer
}

/// The 32-byte key derived from a salt and a password: the slow hash
/// of the password's UTF-8 bytes under the salt.
pub open spec fn key_of(salt: Seq<u8>, password: Seq<char>) -> Seq<u8> {
    scrypt_key(encode_utf8(password), salt)
}

/// Derives the 32-byte key for `salt` and `password`.  Deterministic
/// and slow by design: equal inputs always yield the identical key,
/// and brute-forcing a password is expensive.
pub fn derive_key(salt: &[u8], password: &str) -> (r: [u8; 32])
    ensures
        r@ == key_of(salt@, password@),
        r@.len() == 32,
{
    scrypt_derive(password.as_bytes(), salt)
}

/// Key derivation is a pure function of its inputs: two keys derived
/// from the same salt and password are byte-identical.
pub proof fn lemma_derive_key_deterministic(
    salt: Seq<u8>,
    password: Seq<char>,
    k1: Seq<u8>,
    k2: Seq<u8>,
)
    requires
        k1 == key_of(salt, password),
        k2 == key_of(salt, password),
    ensures
        k1 == k2,
{
}

} // verus!
