//! Authenticated encryption: round trips, tamper rejection, key and secret
//! serialization.

use out_server::Base64;
use out_server::ChaCha20Poly1305;
use out_server::InternalError;
use out_server::RuntimeError;
use out_server::Secp256k1Secret;

struct Plain;

#[test]
fn encrypt_decrypt_round_trip() {
    let key = ChaCha20Poly1305::generate();
    let cases: Vec<Vec<u8>> = vec![
        vec![],
        vec![0],
        b"message testing".to_vec(),
        (0u8..=255).collect(),
    ];
    for data in cases {
        let blob = key.encrypt(&data).expect("encryption must succeed");
        assert_eq!(blob.len(), data.len() + 28);
        let plain = key.decrypt(&blob).expect("own blob must decrypt");
        assert_eq!(plain, data);
    }
}

#[test]
fn every_single_bit_flip_is_rejected() {
    let key = ChaCha20Poly1305::generate();
    let data = b"core".to_vec();
    let blob = key.encrypt(&data).unwrap();
    for byte in 0..blob.len() {
        for bit in 0..8 {
            let mut tampered = blob.clone();
            tampered[byte] ^= 1u8 << bit;
            let r = key.decrypt(&tampered);
            assert_eq!(
                r,
                Err(RuntimeError::ServerError(InternalError::PasswordAesCrypto)),
                "flip of bit {} in byte {} must be rejected",
                bit,
                byte
            );
        }
    }
}

#[test]
fn wrong_key_is_rejected() {
    let key = ChaCha20Poly1305::generate();
    let other = ChaCha20Poly1305::generate();
    let blob = key.encrypt(b"secret").unwrap();
    assert_eq!(
        other.decrypt(&blob),
        Err(RuntimeError::ServerError(InternalError::PasswordAesCrypto))
    );
}

#[test]
fn truncated_blob_is_rejected() {
    let key = ChaCha20Poly1305::generate();
    let blob = key.encrypt(b"secret").unwrap();
    for keep in [0, 1, 11, 12, 27] {
        let r = key.decrypt(&blob[..keep]);
        assert_eq!(
            r,
            Err(RuntimeError::ServerError(InternalError::PasswordAesCrypto)),
            "blob truncated to {} bytes must be rejected",
            keep
        );
    }
}

#[test]
fn key_serialize_deserialize_round_trip() {
    let key = ChaCha20Poly1305::generate();
    let text = key.serialize().unwrap();
    assert_eq!(text.clone().to_string().chars().count(), 43);
    let back = ChaCha20Poly1305::deserialize(&text).unwrap();
    assert_eq!(back, key);
}

#[test]
fn key_deserialize_rejects_wrong_length() {
    let short = Base64::<ChaCha20Poly1305>::encode(&[9u8; 16]).to_string();
    let text = Base64::<ChaCha20Poly1305>::from_text(short);
    assert_eq!(
        ChaCha20Poly1305::deserialize(&text),
        Err(RuntimeError::ServerError(InternalError::Base64DecodeError))
    );
}

#[test]
fn secret_serialize_deserialize_round_trip() {
    let key = ChaCha20Poly1305::generate();
    let secret = Secp256k1Secret::generate();
    let sealed = secret.serialize(&key).unwrap();
    let back = Secp256k1Secret::deserialize(&sealed, &key).unwrap();
    assert_eq!(back, secret);
}

#[test]
fn sealed_secret_is_not_plaintext() {
    // The sealed text decodes to a blob 28 bytes longer than the scalar:
    // nonce and tag surround a ciphertext, never the raw secret bytes.
    let key = ChaCha20Poly1305::generate();
    let secret = Secp256k1Secret::generate();
    let sealed = secret.serialize(&key).unwrap();
    let blob = Base64::<Plain>::from_text(sealed.to_string()).decode().unwrap();
    assert_eq!(blob.len(), 60);
}

#[test]
fn sealed_secret_under_other_key_is_rejected() {
    let key = ChaCha20Poly1305::generate();
    let other = ChaCha20Poly1305::generate();
    let secret = Secp256k1Secret::generate();
    let sealed = secret.serialize(&key).unwrap();
    assert_eq!(
        Secp256k1Secret::deserialize(&sealed, &other),
        Err(RuntimeError::ServerError(InternalError::PasswordAesCrypto))
    );
}

#[test]
fn generated_scalar_is_in_the_secret_range() {
    // Unseal a freshly generated secret and check the 32 bytes encode,
    // big-endian, a nonzero value below the secp256k1 group order.
    let order: [u8; 32] = [
        0xFF, 0xFF, 0xFF, 0xFF, 0xFF, 0xFF, 0xFF, 0xFF, 0xFF, 0xFF, 0xFF, 0xFF, 0xFF, 0xFF,
        0xFF, 0xFE, 0xBA, 0xAE, 0xDC, 0xE6, 0xAF, 0x48, 0xA0, 0x3B, 0xBF, 0xD2, 0x5E, 0x8C,
        0xD0, 0x36, 0x41, 0x41,
    ];
    let key = ChaCha20Poly1305::generate();
    for _ in 0..8 {
        let secret = Secp256k1Secret::generate();
        let sealed = secret.serialize(&key).unwrap();
        let blob = Base64::<Plain>::from_text(sealed.to_string()).decode().unwrap();
        let scalar = key.decrypt(&blob).unwrap();
        assert_eq!(scalar.len(), 32);
        assert!(scalar.iter().any(|&b| b != 0), "scalar must be nonzero");
        assert!(scalar.as_slice() < order.as_slice(), "scalar must be below the group order");
    }
}

#[test]
fn secret_deserialize_distinguishes_its_two_errors() {
    let key = ChaCha20Poly1305::generate();
    // Text that is no canonical encoding: the decode error.
    let garbage = Base64::<out_server::ChaCha20Poly1305Crypted<Secp256k1Secret>>::from_text(
        "not*base64!".to_string(),
    );
    assert_eq!(
        Secp256k1Secret::deserialize(&garbage, &key),
        Err(RuntimeError::ServerError(InternalError::Base64DecodeError))
    );
    // Canonical text whose blob fails to open: the authentication error.
    let bogus_blob = Base64::<out_server::ChaCha20Poly1305Crypted<Secp256k1Secret>>::from_text(
        Base64::<Plain>::encode(&[0u8; 60]).to_string(),
    );
    assert_eq!(
        Secp256k1Secret::deserialize(&bogus_blob, &key),
        Err(RuntimeError::ServerError(InternalError::PasswordAesCrypto))
    );
}

#[test]
fn sign_and_verify_are_unavailable() {
    let secret = Secp256k1Secret::generate();
    assert!(secret.sign(b"message").is_err());
    assert!(secret.verify(b"message").is_err());
}
