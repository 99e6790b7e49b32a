//! Credential creation and verification against the bootstrap master key.

use out_server::Base64;
use out_server::Config;
use out_server::MemberCredentials;
use out_server::RequestError;
use out_server::RuntimeError;

struct Plain;

fn bootstrap_key() -> out_server::ChaCha20Poly1305 {
    let mut config = Config { symmetric_key: None, host: None, port: None, tls: None };
    config.try_init().unwrap();
    config.get_symmetric_key().unwrap()
}

#[test]
fn create_then_verify_scenario() {
    let key = bootstrap_key();
    let credentials = MemberCredentials::new("a@example.com", "correct-pass", &key).unwrap();
    assert_eq!(credentials.email(), "a@example.com");
    assert!(credentials.verify("correct-pass").is_ok());
    assert_eq!(
        credentials.verify("wrong-pass"),
        Err(RuntimeError::RequestError(RequestError::InvalidPassword))
    );
    // The stored private key, decrypted under the bootstrap master key,
    // decodes to exactly 32 bytes.
    let sealed = Base64::<Plain>::from_text(credentials.sealed_private_key().clone());
    let blob = sealed.decode().unwrap();
    let scalar = key.decrypt(&blob).unwrap();
    assert_eq!(scalar.len(), 32);
}

#[test]
fn any_perturbation_of_the_password_fails() {
    let key = bootstrap_key();
    let credentials = MemberCredentials::new("a@example.com", "correct-pass", &key).unwrap();
    for wrong in ["correct-passx", "correct-pas", "Correct-pass", "correct-pass ", "x"] {
        assert_eq!(
            credentials.verify(wrong),
            Err(RuntimeError::RequestError(RequestError::InvalidPassword)),
            "password {:?} must be rejected",
            wrong
        );
    }
}

#[test]
fn empty_password_is_hashable() {
    let key = bootstrap_key();
    let credentials = MemberCredentials::new("e@example.com", "", &key).unwrap();
    assert!(credentials.verify("").is_ok());
    assert_eq!(
        credentials.verify("not-empty"),
        Err(RuntimeError::RequestError(RequestError::InvalidPassword))
    );
}

#[test]
fn stored_hash_is_self_contained_phc_text() {
    let key = bootstrap_key();
    let credentials = MemberCredentials::new("a@example.com", "pw", &key).unwrap();
    let hash = credentials.stored_password_hash();
    assert!(hash.starts_with("$argon2"));
}

#[test]
fn two_credentials_share_no_salt_or_key() {
    let key = bootstrap_key();
    let first = MemberCredentials::new("a@example.com", "pw", &key).unwrap();
    let second = MemberCredentials::new("a@example.com", "pw", &key).unwrap();
    assert_ne!(first.stored_password_hash(), second.stored_password_hash());
    assert_ne!(first.sealed_private_key(), second.sealed_private_key());
}
