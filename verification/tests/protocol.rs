use notes_vault::cipher::encrypt;
use notes_vault::errors::{TransportFailure, WriteError};
use notes_vault::protocol::{
    apply_write, check_response, load_note, prepare_write, route_request, NoteStore, Route,
};
use notes_vault::signing::public_key;

const CONTEXT: &str = "https://notes.example";

#[test]
fn first_write_to_empty_store_commits() {
    let mut store = NoteStore::new();
    let old = store.read();
    assert!(old.is_empty());
    assert_eq!(load_note(&old, "pw1").unwrap(), "");
    let (frame1, sig) = prepare_write(&old, "hello", CONTEXT, "pw1").unwrap();
    let pk = hex::encode(public_key(CONTEXT, "pw1"));
    store.write(&frame1, Some(&sig), &pk).unwrap();
    assert_eq!(store.read(), frame1);
}

#[test]
fn stale_write_is_rejected() {
    let pk = hex::encode(public_key(CONTEXT, "pw1"));
    let mut store = NoteStore::new();
    let empty = store.read();
    let (frame1, sig1) = prepare_write(&empty, "hello", CONTEXT, "pw1").unwrap();
    store.write(&frame1, Some(&sig1), &pk).unwrap();
    // A second client still holds the empty value it read before
    // frame1 landed, and signs against that stale view.
    let (frame2, sig2) = prepare_write(&empty, "rival note", CONTEXT, "pw1").unwrap();
    let e = store.write(&frame2, Some(&sig2), &pk).unwrap_err();
    assert_eq!(e, WriteError::SignatureVerificationFailure);
    assert_eq!(store.read(), frame1);
}

#[test]
fn update_from_current_value_commits() {
    let pk = hex::encode(public_key(CONTEXT, "pw1"));
    let mut store = NoteStore::new();
    let (frame1, sig1) = prepare_write(&store.read(), "hello", CONTEXT, "pw1").unwrap();
    store.write(&frame1, Some(&sig1), &pk).unwrap();
    let current = store.read();
    let (frame2, sig2) = prepare_write(&current, "updated text", CONTEXT, "pw1").unwrap();
    store.write(&frame2, Some(&sig2), &pk).unwrap();
    assert_eq!(store.read(), frame2);
}

#[test]
fn signature_binds_the_previous_value() {
    let pk = hex::encode(public_key(CONTEXT, "pw"));
    let old_a = encrypt("a", "pw").unwrap();
    let old_b = encrypt("b", "pw").unwrap();
    let (new_frame, sig) = prepare_write(&old_a, "new", CONTEXT, "pw").unwrap();
    assert!(apply_write(&old_a, &new_frame, Some(&sig), &pk).is_ok());
    assert_eq!(
        apply_write(&old_b, &new_frame, Some(&sig), &pk).unwrap_err(),
        WriteError::SignatureVerificationFailure
    );
}

#[test]
fn wrong_server_key_rejects_every_write() {
    let configured = hex::encode(public_key(CONTEXT, "operator pw"));
    let (frame, sig) = prepare_write(b"", "hello", CONTEXT, "client pw").unwrap();
    assert_eq!(
        apply_write(b"", &frame, Some(&sig), &configured).unwrap_err(),
        WriteError::SignatureVerificationFailure
    );
}

#[test]
fn signature_hex_is_lowercase_and_case_insensitive() {
    let pk = hex::encode(public_key(CONTEXT, "pw"));
    let (frame, sig) = prepare_write(b"", "hello", CONTEXT, "pw").unwrap();
    assert_eq!(sig.len(), 128);
    assert!(sig
        .chars()
        .all(|c| c.is_ascii_hexdigit() && !c.is_ascii_uppercase()));
    let upper = sig.to_uppercase();
    assert!(apply_write(b"", &frame, Some(upper.as_str()), &pk).is_ok());
}

#[test]
fn malformed_requests_are_rejected_exactly() {
    let pk = hex::encode(public_key(CONTEXT, "pw"));
    let frame = [7u8; 48];
    let zeros = "00".repeat(64);
    assert_eq!(
        apply_write(b"", &frame, None, &pk).unwrap_err(),
        WriteError::MissingSignature
    );
    assert_eq!(
        apply_write(b"", &frame, Some("not hex at all"), &pk).unwrap_err(),
        WriteError::MalformedSignatureHex
    );
    assert_eq!(
        apply_write(b"", &frame, Some("abcd"), &pk).unwrap_err(),
        WriteError::MalformedSignatureLength
    );
    assert_eq!(
        apply_write(b"", &frame, Some(zeros.as_str()), "xyz").unwrap_err(),
        WriteError::InvalidPublicKey
    );
    assert_eq!(
        apply_write(b"", &frame, Some(zeros.as_str()), "abcd").unwrap_err(),
        WriteError::InvalidPublicKey
    );
    assert_eq!(
        apply_write(b"", &frame, Some(zeros.as_str()), &pk).unwrap_err(),
        WriteError::SignatureVerificationFailure
    );
}

#[test]
fn write_error_messages() {
    assert_eq!(WriteError::MissingSignature.message(), "missing signature");
    assert_eq!(
        WriteError::MalformedSignatureHex.message(),
        "signature is not valid hex"
    );
    assert_eq!(
        WriteError::MalformedSignatureLength.message(),
        "signature has the wrong length"
    );
    assert_eq!(
        WriteError::InvalidPublicKey.message(),
        "configured public key is invalid"
    );
    assert_eq!(
        WriteError::SignatureVerificationFailure.message(),
        "signature verification failed"
    );
}

#[test]
fn response_status_is_screened_by_range() {
    assert!(check_response(200).is_ok());
    assert!(check_response(204).is_ok());
    assert!(check_response(299).is_ok());
    assert_eq!(check_response(199).unwrap_err(), TransportFailure { status: 199 });
    assert_eq!(check_response(300).unwrap_err(), TransportFailure { status: 300 });
    assert_eq!(check_response(400).unwrap_err(), TransportFailure { status: 400 });
    assert_eq!(check_response(500).unwrap_err(), TransportFailure { status: 500 });
}

#[test]
fn routing_matches_the_note_endpoints() {
    assert_eq!(route_request("GET", "/notes"), Route::ReadNote);
    assert_eq!(route_request("POST", "/notes"), Route::WriteNote);
    assert_eq!(route_request("GET", "/index.html"), Route::ServeAsset);
    assert_eq!(route_request("GET", "/"), Route::ServeAsset);
    assert_eq!(route_request("PUT", "/notes"), Route::BadRequest);
    assert_eq!(route_request("POST", "/other"), Route::BadRequest);
}

#[test]
fn configured_key_matches_decoded_public_key() {
    let pk = public_key(CONTEXT, "pw");
    let pk_hex = hex::encode(pk);
    assert_eq!(hex::decode(&pk_hex).unwrap(), pk.to_vec());
}
