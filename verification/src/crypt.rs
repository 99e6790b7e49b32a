//! Symmetric authenticated encryption and sealed elliptic-curve secrets.
//!
//! `ChaCha20Poly1305` is a 32-byte symmetric key. Encryption draws a fresh
//! 12-byte nonce for every call and returns nonce ‖ ciphertext ‖ tag;
//! decryption authenticates before returning anything, and a tampered,
//! truncated or foreign blob is rejected rather than decrypted. A
//! `Secp256k1Secret` is a 32-byte elliptic-curve scalar that leaves memory
//! only encrypted under such a key and rendered as tagged base64 text.

use vstd::prelude::*;

use chacha20poly1305::aead::Aead;
use chacha20poly1305::aead::AeadCore;
use chacha20poly1305::aead::KeyInit;
use chacha20poly1305::ChaCha20Poly1305 as ChaCha20Poly1305Chiper;
use rand::SeedableRng;
use rand_chacha::ChaCha20Rng;

use crate::encode::b64_of;
use crate::encode::Base64;
use crate::error::InternalError;
use crate::error::RuntimeError;
use crate::marker::Marker;

verus! {

/// What authenticated opening of `ct` (ciphertext with trailing tag) under
/// `key` and `nonce` returns: the unique plaintext when the tag verifies,
/// nothing otherwise. Deterministic in its three arguments.
pub uninterp spec fn aead_open(key: Seq<u8>, nonce: Seq<u8>, ct: Seq<u8>) -> Option<Seq<u8>>;

/// What decrypting a whole blob (nonce ‖ ciphertext ‖ tag) under `key`
/// returns: a blob too short to hold a nonce opens to nothing.
pub open spec fn decrypt_model(key: Seq<u8>, blob: Seq<u8>) -> Option<Seq<u8>> {
    if blob.len() >= 12 {
        aead_open(key, blob.take(12), blob.skip(12))
    } else {
        None
    }
}

/// `text` is tagged base64 of a blob that decrypts under `key` to `secret`.
pub open spec fn seals_to(key: Seq<u8>, text: Seq<char>, secret: Seq<u8>) -> bool {
    exists|blob: Seq<u8>|
        text == #[trigger] b64_of(blob) && decrypt_model(key, blob) == Some(secret)
}

/// The value of a byte string read as one big-endian integer.
pub open spec fn be_bytes_value(b: Seq<u8>) -> nat
    decreases b.len(),
{
    if b.len() == 0 {
        0
    } else {
        be_bytes_value(b.drop_last()) * 256 + (b.last() as nat)
    }
}

/// The order of the secp256k1 group,
/// 0xFFFFFFFFFFFFFFFFFFFFFFFFFFFFFFFEBAAEDCE6AF48A03BBFD25E8CD0364141,
/// assembled from its two 128-bit halves.
pub open spec fn secp256k1_order() -> nat {
    (0xFFFFFFFFFFFFFFFFFFFFFFFFFFFFFFFEu128 as nat) * ((0xFFFFFFFFFFFFFFFFFFFFFFFFFFFFFFFFu128
        as nat) + 1) + (0xBAAEDCE6AF48A03BBFD25E8CD0364141u128 as nat)
}

/// `b` encodes, big-endian, a scalar in the curve's valid secret range:
/// nonzero and below the group order.
pub open spec fn is_secret_scalar(b: Seq<u8>) -> bool {
    0 < be_bytes_value(b) < secp256k1_order()
}

/// A blob assembled as nonce ‖ ciphertext-with-tag decrypts to whatever
/// authenticated opening of its parts yields: the layout that `encrypt`
/// writes is exactly the layout that `decrypt` reads back.
pub proof fn lemma_blob_layout(key: Seq<u8>, nonce: Seq<u8>, ct: Seq<u8>)
    requires
        nonce.len() == 12,
    ensures
        decrypt_model(key, nonce + ct) == aead_open(key, nonce, ct),
{
    assert((nonce + ct).take(12) =~= nonce);
    assert((nonce + ct).skip(12) =~= ct);
}

/// Relies on chacha20poly1305's `generate_key`: 32 bytes drawn from the
/// entropy-seeded generator.
#[verifier::external_body]
fn chacha_generate_key() -> (r: Vec<u8>)
    ensures
        r@.len() == 32,
{
    ChaCha20Poly1305Chiper::generate_key(&mut ChaCha20Rng::from_entropy()).as_slice().into()
}

/// Relies on chacha20poly1305's `generate_nonce`: 12 bytes drawn from the
/// entropy-seeded generator.
#[verifier::external_body]
fn chacha_generate_nonce() -> (r: Vec<u8>)
    ensures
        r@.len() == 12,
{
    ChaCha20Poly1305Chiper::generate_nonce(&mut ChaCha20Rng::from_entropy()).as_slice().into()
}

/// Relies on chacha20poly1305's `encrypt`: the result is the ciphertext with
/// the 16-byte tag appended, `decrypt` under the same key and nonce returns
/// the plaintext again, and sealing fails only for plaintexts of at least
/// 2^32 ChaCha20 blocks.
#[verifier::external_body]
fn aead_seal(key: &[u8], nonce: &[u8], plaintext: &[u8]) -> (r: Result<Vec<u8>, ()>)
    requires
        key@.len() == 32,
        nonce@.len() == 12,
    ensures
        r matches Ok(c) ==> (c@.len() == plaintext@.len() + 16 && aead_open(
            key@,
            nonce@,
            c@,
        ) == Some(plaintext@)),
        r is Err ==> plaintext@.len() >= 0x100000000,
{
    let cipher = ChaCha20Poly1305Chiper::new(chacha20poly1305::Key::from_slice(key));
    match cipher.encrypt(chacha20poly1305::Nonce::from_slice(nonce), plaintext) {
        Ok(c) => Ok(c),
        Err(_) => Err(()),
    }
}

/// Relies on chacha20poly1305's `decrypt`: authenticated opening of
/// ciphertext-with-trailing-tag, deterministic in key, nonce and input,
/// failing exactly when the tag does not verify.
#[verifier::external_body]
fn aead_open_call(key: &[u8], nonce: &[u8], ct: &[u8]) -> (r: Result<Vec<u8>, ()>)
    requires
        key@.len() == 32,
        nonce@.len() == 12,
    ensures
        r matches Ok(p) ==> aead_open(key@, nonce@, ct@) == Some(p@),
        r is Err ==> aead_open(key@, nonce@, ct@) is None,
{
    let cipher = ChaCha20Poly1305Chiper::new(chacha20poly1305::Key::from_slice(key));
    match cipher.decrypt(chacha20poly1305::Nonce::from_slice(nonce), ct) {
        Ok(p) => Ok(p),
        Err(_) => Err(()),
    }
}

/// Relies on k256's `SecretKey::random` and `to_bytes`: a fresh uniformly
/// random secp256k1 secret scalar, serialized as 32 big-endian bytes.
/// Rejection sampling guarantees of every outcome that it is nonzero and
/// below the group order; uniformity itself cannot be stated of a single
/// result.
#[verifier::external_body]
fn secp_generate_raw() -> (r: Vec<u8>)
    ensures
        r@.len() == 32,
        is_secret_scalar(r@),
{
    k256::SecretKey::random(&mut ChaCha20Rng::from_entropy())
        .to_bytes()
        .as_slice()
        .iter()
        .map(|&t| t)
        .collect()
}

/// A 32-byte symmetric key for authenticated encryption.
#[derive(Debug, PartialEq, Clone)]
pub struct ChaCha20Poly1305(Vec<u8>);

/// Tagged value that has been encrypted under a `ChaCha20Poly1305` key.
pub type ChaCha20Poly1305Crypted<T> = Marker<T, ChaCha20Poly1305>;

/// A 32-byte secp256k1 secret scalar.
#[derive(Debug, PartialEq, Clone)]
pub struct Secp256k1Secret(Vec<u8>);

impl View for ChaCha20Poly1305 {
    type V = Seq<u8>;

    closed spec fn view(&self) -> Seq<u8> {
        self.0@
    }
}

impl ChaCha20Poly1305 {
    /// The key holds exactly 32 bytes.
    pub open spec fn wf(&self) -> bool {
        self@.len() == 32
    }

    /// Draw a fresh key from the entropy-seeded random source.
    pub fn generate() -> (r: Self)
        ensures
            r.wf(),
    {
        ChaCha20Poly1305(chacha_generate_key())
    }

    /// Seal `data` under this key: a fresh random nonce, then one AEAD pass.
    /// The returned blob is nonce ‖ ciphertext ‖ tag, 28 bytes longer than
    /// the plaintext, and decrypting it under this key yields `data` again.
    pub fn encrypt(&self, data: &[u8]) -> (r: Result<Vec<u8>, RuntimeError>)
        requires
            self.wf(),
        ensures
            r matches Ok(blob) ==> (blob@.len() == data@.len() + 28 && decrypt_model(
                self@,
                blob@,
            ) == Some(data@)),
            r is Err ==> data@.len() >= 0x100000000,
            r is Err ==> r == Err::<Vec<u8>, RuntimeError>(
                RuntimeError::ServerError(InternalError::PasswordAesCrypto),
            ),
    {
        let nonce = chacha_generate_nonce();
        match aead_seal(self.0.as_slice(), nonce.as_slice(), data) {
            Ok(ct) => {
                let mut result = nonce;
                result.extend_from_slice(ct.as_slice());
                proof {
                    assert(result@.take(12) =~= nonce@);
                    assert(result@.skip(12) =~= ct@);
                }
                Ok(result)
            },
            Err(_) => Err(RuntimeError::ServerError(InternalError::PasswordAesCrypto)),
        }
    }

    /// Open a blob sealed by `encrypt`. Fails, and returns nothing else,
    /// whenever the blob is truncated, tampered with anywhere, or sealed
    /// under a different key.
    pub fn decrypt(&self, data: &[u8]) -> (r: Result<Vec<u8>, RuntimeError>)
        requires
            self.wf(),
        ensures
            r matches Ok(p) ==> decrypt_model(self@, data@) == Some(p@),
            r is Err ==> decrypt_model(self@, data@) is None,
            r is Err ==> r == Err::<Vec<u8>, RuntimeError>(
                RuntimeError::ServerError(InternalError::PasswordAesCrypto),
            ),
    {
        if data.len() < 12 {
            return Err(RuntimeError::ServerError(InternalError::PasswordAesCrypto));
        }
        let nonce = vstd::slice::slice_subrange(data, 0, 12);
        let ct = vstd::slice::slice_subrange(data, 12, data.len());
        match aead_open_call(self.0.as_slice(), nonce, ct) {
            Ok(p) => Ok(p),
            Err(_) => Err(RuntimeError::ServerError(InternalError::PasswordAesCrypto)),
        }
    }

    /// Render the key itself as tagged base64 text; the key is the root of
    /// trust and is not wrapped under any further key.
    pub fn serialize(&self) -> (r: Result<Base64<Self>, RuntimeError>)
        ensures
            r matches Ok(t) && t@ == b64_of(self@) && t@.len() == (self@.len() * 4 + 2) / 3,
    {
        Ok(Base64::encode(self.0.as_slice()))
    }

    /// Read a key back from its tagged base64 text. Succeeds exactly when
    /// the text is the canonical encoding of 32 bytes, and then returns
    /// those bytes.
    pub fn deserialize(str: &Base64<Self>) -> (r: Result<Self, RuntimeError>)
        ensures
            r matches Ok(k) ==> (k.wf() && str@ == b64_of(k@)),
            r matches Ok(k) ==> (forall|b: Seq<u8>| str@ == #[trigger] b64_of(b) ==> b == k@),
            r is Err ==> (forall|b: Seq<u8>| str@ == #[trigger] b64_of(b) ==> b.len() != 32),
            r is Err ==> r == Err::<Self, RuntimeError>(
                RuntimeError::ServerError(InternalError::Base64DecodeError),
            ),
    {
        match str.decode() {
            Ok(bytes) => {
                if bytes.len() == 32 {
                    Ok(ChaCha20Poly1305(bytes))
                } else {
                    Err(RuntimeError::ServerError(InternalError::Base64DecodeError))
                }
            },
            Err(_) => Err(RuntimeError::ServerError(InternalError::Base64DecodeError)),
        }
    }
}

impl View for Secp256k1Secret {
    type V = Seq<u8>;

    closed spec fn view(&self) -> Seq<u8> {
        self.0@
    }
}

impl Secp256k1Secret {
    /// The secret holds exactly 32 bytes.
    pub open spec fn wf(&self) -> bool {
        self@.len() == 32
    }

    /// Draw a fresh secret scalar from the entropy-seeded random source:
    /// 32 big-endian bytes of a value in the curve's valid secret range.
    /// This is the only way a secret comes into being.
    pub fn generate() -> (r: Self)
        ensures
            r.wf(),
            is_secret_scalar(r@),
    {
        Secp256k1Secret(secp_generate_raw())
    }

    /// Signing is deliberately unavailable: no signature scheme has been
    /// chosen for this curve yet, and none is inferred. Every call reports
    /// an internal error.
    pub fn sign(&self, data: &[u8]) -> (r: Result<Vec<u8>, RuntimeError>)
        ensures
            r is Err,
    {
        let _ = data;
        Err(
            RuntimeError::ServerError(
                InternalError::ServerError(String::from_str("no signature scheme is available")),
            ),
        )
    }

    /// Signature verification is deliberately unavailable, as `sign` is.
    /// Every call reports an internal error.
    pub fn verify(&self, data: &[u8]) -> (r: Result<Vec<u8>, RuntimeError>)
        ensures
            r is Err,
    {
        let _ = data;
        Err(
            RuntimeError::ServerError(
                InternalError::ServerError(String::from_str("no signature scheme is available")),
            ),
        )
    }

    /// Seal this secret under `crypt` and render the blob as tagged base64
    /// text: the only sanctioned way the secret crosses a text boundary.
    pub fn serialize(&self, crypt: &ChaCha20Poly1305) -> (r: Result<
        Base64<ChaCha20Poly1305Crypted<Self>>,
        RuntimeError,
    >)
        requires
            self.wf(),
            crypt.wf(),
        ensures
            r matches Ok(t) && seals_to(crypt@, t@, self@),
            r matches Ok(t) ==> t@.len() == ((self@.len() + 28) * 4 + 2) / 3,
            r matches Ok(t) ==> (exists|blob: Seq<u8>|
                t@ == #[trigger] b64_of(blob) && blob.len() == self@.len() + 28
                    && decrypt_model(crypt@, blob) == Some(self@)),
    {
        match crypt.encrypt(self.0.as_slice()) {
            Ok(blob) => {
                let t = Base64::encode(blob.as_slice());
                proof {
                    assert(t@ == b64_of(blob@) && blob@.len() == self@.len() + 28
                        && decrypt_model(crypt@, blob@) == Some(self@));
                }
                Ok(t)
            },
            Err(e) => Err(e),
        }
    }

    /// Decode and decrypt a sealed secret. On the text produced by
    /// `serialize` under the same key this returns the secret that was
    /// sealed;
    /// decode and authentication failures are propagated unchanged.
    pub fn deserialize(
        str: &Base64<ChaCha20Poly1305Crypted<Self>>,
        crypt: &ChaCha20Poly1305,
    ) -> (r: Result<Self, RuntimeError>)
        requires
            crypt.wf(),
        ensures
            r matches Ok(s) ==> seals_to(crypt@, str@, s@),
            r matches Ok(s) ==> (forall|secret: Seq<u8>|
                seals_to(crypt@, str@, secret) ==> secret == s@),
            r is Err ==> (forall|secret: Seq<u8>| !seals_to(crypt@, str@, secret)),
            r == Err::<Self, RuntimeError>(
                RuntimeError::ServerError(InternalError::Base64DecodeError),
            ) <==> (forall|b: Seq<u8>| str@ != #[trigger] b64_of(b)),
            r == Err::<Self, RuntimeError>(
                RuntimeError::ServerError(InternalError::PasswordAesCrypto),
            ) <==> (exists|b: Seq<u8>|
                str@ == #[trigger] b64_of(b) && decrypt_model(crypt@, b) is None),
    {
        match str.decode() {
            Ok(blob) => {
                match crypt.decrypt(blob.as_slice()) {
                    Ok(p) => Ok(Secp256k1Secret(p)),
                    Err(e) => Err(e),
                }
            },
            Err(e) => Err(e),
        }
    }
}

} // verus!
