use notes_vault::kdf::derive_key;
use notes_vault::signing::{derive_keypair, public_key, sign};

#[test]
fn derive_key_is_deterministic() {
    assert_eq!(derive_key(b"salt", "pw"), derive_key(b"salt", "pw"));
}

#[test]
fn derive_key_depends_on_both_inputs() {
    let base = derive_key(b"salt", "pw");
    assert_ne!(base, derive_key(b"other salt", "pw"));
    assert_ne!(base, derive_key(b"salt", "other pw"));
}

#[test]
fn keypair_is_deterministic() {
    let a = derive_keypair("https://notes.example", "pw");
    let b = derive_keypair("https://notes.example", "pw");
    assert_eq!(a.public_bytes(), b.public_bytes());
    assert_eq!(public_key("https://notes.example", "pw"), a.public_bytes());
}

#[test]
fn public_key_depends_on_password() {
    assert_ne!(
        public_key("https://notes.example", "pw1"),
        public_key("https://notes.example", "pw2")
    );
}

#[test]
fn signing_is_deterministic() {
    let a = sign(b"message", "https://notes.example", "pw");
    let b = sign(b"message", "https://notes.example", "pw");
    assert_eq!(a.to_vec(), b.to_vec());
}
