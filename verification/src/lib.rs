//! Cryptographic core of a shared encrypted-note service.
//!
//! A single note is kept on an untrusted server as a self-contained
//! encrypted frame.  Clients derive every key from a password: a slow
//! salted derivation yields both the symmetric key protecting the note
//! body and the seed of a deterministic signing keypair.  A write is
//! authorized by a signature over the concatenation of the previously
//! stored frame and the new one, which lets the server enforce a
//! compare-and-swap rule without ever learning the password or the
//! plaintext.

pub mod cipher;
pub mod errors;
pub mod hex_codec;
pub mod kdf;
pub mod protocol;
pub mod signing;
