//! The conditional-write protocol: a cryptographic compare-and-swap.
//!
//! A client authorizes a write by signing the concatenation of the
//! frame it last saw on the server and the frame it wants stored.
//! The server verifies that signature over its *own* current value,
//! so a writer working from a stale read fails verification and the
//! store is left untouched: lost updates are prevented without
//! sessions, versions or server-side secrets.

use crate::cipher::{decrypt, decrypt_result, encrypt};
use crate::errors::{CryptoError, TransportFailure, WriteError};
use crate::hex_codec::{hex_decode, hex_encode, hex_of, lemma_hex_round_trip, unhex_of, valid_hex};
use crate::signing::{
    derive_keypair, ed25519_public_of, ed25519_signature_of, ed25519_verifies, ed25519_verify,
    signing_seed, PUBLIC_KEY_SIZE, SIGNATURE_SIZE,
};
use vstd::prelude::*;
use vstd::slice::slice_to_vec;
use vstd::string::StringSliceAdditionalSpecFns;
use vstd::utf8::{encode_utf8, encode_utf8_decode_utf8};

verus! {

/// How the server routes one request, by method and path alone.
#[derive(Clone, Copy, Debug, PartialEq, Eq, Structural)]
pub enum Route {
    /// `GET` on the note path: return the stored frame verbatim.
    ReadNote,
    /// `POST` on the note path: run the conditional-write rule.
    WriteNote,
    /// Any other `GET`: serve a static asset of the hosting side.
    ServeAsset,
    /// Anything else is rejected.
    BadRequest,
}

/// The route for a method and a path.
pub open spec fn route_of(method: Seq<char>, path: Seq<char>) -> Route {
    if method == "GET"@ && path == "/notes"@ {
        Route::ReadNote
    } else if method == "POST"@ && path == "/notes"@ {
        Route::WriteNote
    } else if method == "GET"@ {
        Route::ServeAsset
    } else {
        Route::BadRequest
    }
}

/// Byte-for-byte equality of two slices.
fn bytes_eq(a: &[u8], b: &[u8]) -> (r: bool)
    ensures
        r == (a@ == b@),
{
    if a.len() != b.len() {
        return false;
    }
    let mut i: usize = 0;
    while i < a.len()
        invariant
            i <= a@.len(),
            a@.len() == b@.len(),
            forall|j: int| 0 <= j < i ==> a@[j] == b@[j],
        decreases a@.len() - i,
    {
        if a[i] != b[i] {
            return false;
        }
        i += 1;
    }
    proof {
        assert(a@ =~= b@);
    }
    true
}

/// Routes one request as the server does.
pub fn route_request(method: &str, path: &str) -> (r: Route)
    ensures
        r == route_of(method@, path@),
{
    let is_get = bytes_eq(method.as_bytes(), "GET".as_bytes());
    let is_post = bytes_eq(method.as_bytes(), "POST".as_bytes());
    let is_notes = bytes_eq(path.as_bytes(), "/notes".as_bytes());
    proof {
        encode_utf8_decode_utf8(method@);
        encode_utf8_decode_utf8(path@);
        encode_utf8_decode_utf8("GET"@);
        encode_utf8_decode_utf8("POST"@);
        encode_utf8_decode_utf8("/notes"@);
    }
    if is_get && is_notes {
        Route::ReadNote
    } else if is_post && is_notes {
        Route::WriteNote
    } else if is_get {
        Route::ServeAsset
    } else {
        Route::BadRequest
    }
}

/// Whether the server accepts a write request: the signature field
/// decodes to 64 bytes, the configured public key decodes to 32
/// bytes, and the signature verifies over the currently stored frame
/// followed by the new one.
pub open spec fn write_accepted(
    stored: Seq<u8>,
    new_frame: Seq<u8>,
    signature_hex: Seq<char>,
    public_key_hex: Seq<char>,
) -> bool {
    &&& valid_hex(signature_hex)
    &&& unhex_of(signature_hex).len() == SIGNATURE_SIZE
    &&& valid_hex(public_key_hex)
    &&& unhex_of(public_key_hex).len() == PUBLIC_KEY_SIZE
    &&& ed25519_verifies(unhex_of(public_key_hex), stored + new_frame, unhex_of(signature_hex))
}

/// The server's whole decision for one write request: the committed
/// frame, or the exact reason the write is rejected.  Every rejection
/// leaves the store untouched.
pub open spec fn write_decision(
    stored: Seq<u8>,
    new_frame: Seq<u8>,
    signature_hex: Option<Seq<char>>,
    public_key_hex: Seq<char>,
) -> Result<Seq<u8>, WriteError> {
    match signature_hex {
        None => Err(WriteError::MissingSignature),
        Some(sig_hex) => {
            if !valid_hex(sig_hex) {
                Err(WriteError::MalformedSignatureHex)
            } else if unhex_of(sig_hex).len() != SIGNATURE_SIZE {
                Err(WriteError::MalformedSignatureLength)
            } else if !(valid_hex(public_key_hex) && unhex_of(public_key_hex).len()
                == PUBLIC_KEY_SIZE) {
                Err(WriteError::InvalidPublicKey)
            } else if !ed25519_verifies(
                unhex_of(public_key_hex),
                stored + new_frame,
                unhex_of(sig_hex),
            ) {
                Err(WriteError::SignatureVerificationFailure)
            } else {
                Ok(new_frame)
            }
        },
    }
}

/// The compare-and-swap rule in one statement: a request that does
/// carry a signature is committed exactly when that signature
/// verifies over the server's *own* current value followed by the new
/// frame, and what is committed is exactly the new frame.  A writer
/// whose signature covers any other previous value is rejected.
pub proof fn lemma_write_commits_exactly_when_accepted(
    stored: Seq<u8>,
    new_frame: Seq<u8>,
    signature_hex: Seq<char>,
    public_key_hex: Seq<char>,
)
    ensures
        write_decision(stored, new_frame, Some(signature_hex), public_key_hex) is Ok
            <==> write_accepted(stored, new_frame, signature_hex, public_key_hex),
        write_decision(stored, new_frame, Some(signature_hex), public_key_hex) is Ok
            ==> write_decision(stored, new_frame, Some(signature_hex), public_key_hex).unwrap()
            == new_frame,
{
}

/// The view of an optional request field.
pub open spec fn field_view(field: Option<&str>) -> Option<Seq<char>> {
    match field {
        Some(s) => Some(s@),
        None => None,
    }
}

/// Decides one write request as the server does: decodes the hex
/// signature and the configured public key, reconstructs
/// `stored ‖ new` from the server's own current value, and verifies.
/// Returns the value to store, or the rejection; it never alters
/// anything itself.
pub fn apply_write(
    stored: &[u8],
    new_frame: &[u8],
    signature_hex: Option<&str>,
    public_key_hex: &str,
) -> (r: Result<Vec<u8>, WriteError>)
    ensures
        r is Ok <==> write_decision(
            stored@,
            new_frame@,
            field_view(signature_hex),
            public_key_hex@,
        ) is Ok,
        r is Ok ==> r.unwrap()@ == new_frame@,
        r is Err ==> r.unwrap_err() == write_decision(
            stored@,
            new_frame@,
            field_view(signature_hex),
            public_key_hex@,
        )->Err_0,
        r is Ok <==> write_accepted(
            stored@,
            new_frame@,
            field_view(signature_hex)->0,
            public_key_hex@,
        ) && signature_hex is Some,
{
    let sig_str = match signature_hex {
        Some(s) => s,
        None => {
            return Err(WriteError::MissingSignature);
        },
    };
    let signature = match hex_decode(sig_str) {
        Some(v) => v,
        None => {
            return Err(WriteError::MalformedSignatureHex);
        },
    };
    if signature.len() != SIGNATURE_SIZE {
        return Err(WriteError::MalformedSignatureLength);
    }
    let public_key = match hex_decode(public_key_hex) {
        Some(v) => v,
        None => {
            return Err(WriteError::InvalidPublicKey);
        },
    };
    if public_key.len() != PUBLIC_KEY_SIZE {
        return Err(WriteError::InvalidPublicKey);
    }
    let mut message: Vec<u8> = Vec::new();
    message.extend_from_slice(stored);
    message.extend_from_slice(new_frame);
    proof {
        assert(message@ =~= stored@ + new_frame@);
    }
    if ed25519_verify(public_key.as_slice(), message.as_slice(), signature.as_slice()) {
        Ok(slice_to_vec(new_frame))
    } else {
        Err(WriteError::SignatureVerificationFailure)
    }
}

/// The server's note store: a single value, replaced wholesale on a
/// committed write and never partially mutated.  An empty value is
/// the "no note yet" sentinel.
pub struct NoteStore {
    frame: Vec<u8>,
}

impl View for NoteStore {
    type V = Seq<u8>;

    closed spec fn view(&self) -> Seq<u8> {
        self.frame@
    }
}

impl NoteStore {
    /// An empty store: no note yet.
    pub fn new() -> (r: Self)
        ensures
            r@ == Seq::<u8>::empty(),
    {
        NoteStore { frame: Vec::new() }
    }

    /// The read path: the current frame, verbatim and uninterpreted;
    /// the server never decrypts.
    pub fn read(&self) -> (r: Vec<u8>)
        ensures
            r@ == self@,
    {
        self.frame.clone()
    }

    /// The write path: verify the request against the store's own
    /// current value, then commit the new frame — or reject and
    /// change nothing.
    pub fn write(
        &mut self,
        new_frame: &[u8],
        signature_hex: Option<&str>,
        public_key_hex: &str,
    ) -> (r: Result<(), WriteError>)
        ensures
            r is Ok <==> write_decision(
                old(self)@,
                new_frame@,
                field_view(signature_hex),
                public_key_hex@,
            ) is Ok,
            r is Ok ==> final(self)@ == new_frame@,
            r is Err ==> final(self)@ == old(self)@ && r.unwrap_err() == write_decision(
                old(self)@,
                new_frame@,
                field_view(signature_hex),
                public_key_hex@,
            )->Err_0,
    {
        match apply_write(self.frame.as_slice(), new_frame, signature_hex, public_key_hex) {
            Ok(committed) => {
                self.frame = committed;
                Ok(())
            },
            Err(e) => Err(e),
        }
    }
}

/// Whether a response status reports success: the 2xx range.
pub open spec fn status_ok(status: u16) -> bool {
    200 <= status <= 299
}

/// Screens a response status as the client does: accepts the success
/// range and surfaces anything else verbatim as a transport failure.
pub fn check_response(status: u16) -> (r: Result<(), TransportFailure>)
    ensures
        r is Ok <==> status_ok(status),
        r is Err ==> r.unwrap_err().status == status,
{
    if 200 <= status && status <= 299 {
        Ok(())
    } else {
        Err(TransportFailure { status })
    }
}

/// What loading the note from a stored value yields for a password:
/// the empty note when nothing is stored, else the decryption of the
/// stored frame.
pub open spec fn loaded_note(stored: Seq<u8>, password: Seq<char>) -> Result<
    Seq<char>,
    CryptoError,
> {
    if stored.len() == 0 {
        Ok(Seq::<char>::empty())
    } else {
        decrypt_result(stored, password)
    }
}

/// Interprets a frame fetched from the server: an empty value is the
/// "no note yet" sentinel and yields the empty note; anything else is
/// decrypted with the password entered locally.
pub fn load_note(stored: &[u8], password: &str) -> (r: Result<String, CryptoError>)
    ensures
        r is Ok <==> loaded_note(stored@, password@) is Ok,
        r is Ok ==> r.unwrap()@ == loaded_note(stored@, password@).unwrap(),
        r is Err ==> r.unwrap_err() == loaded_note(stored@, password@)->Err_0,
{
    if stored.len() == 0 {
        Ok(String::new())
    } else {
        decrypt(stored, password)
    }
}

/// Prepares an authorized write: encrypts the note under the password
/// and signs `old ‖ new` with the keypair derived from the context
/// salt and the password, the signature hex-encoded for the request
/// header.  The returned frame decrypts, under the same password, to
/// the note that was written; and a server whose configured public
/// key matches this password's, and which still stores exactly
/// `old_frame`, accepts the request and commits exactly the returned
/// frame.
pub fn prepare_write(
    old_frame: &[u8],
    plaintext: &str,
    context_salt: &str,
    password: &str,
) -> (r: Result<(Vec<u8>, String), CryptoError>)
    ensures
        r is Ok ==> decrypt_result(r.unwrap().0@, password@) == Ok::<Seq<char>, CryptoError>(
            plaintext@,
        ),
        r is Ok ==> r.unwrap().1@ == hex_of(
            ed25519_signature_of(
                signing_seed(context_salt@, password@),
                old_frame@ + r.unwrap().0@,
            ),
        ),
        r is Ok ==> write_accepted(
            old_frame@,
            r.unwrap().0@,
            r.unwrap().1@,
            hex_of(ed25519_public_of(signing_seed(context_salt@, password@))),
        ),
        r is Err ==> r.unwrap_err() == CryptoError::RandomnessFailure || (r.unwrap_err()
            == CryptoError::EncryptionFailure && encode_utf8(plaintext@).len()
            > crate::cipher::MAX_PLAINTEXT_BYTES),
{
    let new_frame = match encrypt(plaintext, password) {
        Ok(v) => v,
        Err(e) => {
            return Err(e);
        },
    };
    let mut message: Vec<u8> = Vec::new();
    message.extend_from_slice(old_frame);
    message.extend_from_slice(new_frame.as_slice());
    proof {
        assert(message@ =~= old_frame@ + new_frame@);
    }
    let keypair = derive_keypair(context_salt, password);
    let signature = keypair.sign(message.as_slice());
    let signature_hex = hex_encode(signature.as_slice());
    proof {
        lemma_hex_round_trip(signature@);
        lemma_hex_round_trip(ed25519_public_of(signing_seed(context_salt@, password@)));
    }
    Ok((new_frame, signature_hex))
}

} // verus!
