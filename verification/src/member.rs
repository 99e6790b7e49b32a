//! Member identities and their credentials.
//!
//! A credential binds an identity's email to a memory-hard password hash
//! (self-contained PHC text: algorithm, parameters, salt and hash) and to a
//! fresh elliptic-curve private key that is sealed under the process master
//! key before it is stored. The plaintext private key never reaches any
//! long-lived state.

use vstd::prelude::*;

use argon2::Argon2;
use argon2::password_hash::PasswordHash;
use argon2::password_hash::PasswordHasher;
use argon2::password_hash::PasswordVerifier;
use argon2::password_hash::SaltString;
use rand::SeedableRng;
use rand_chacha::ChaCha12Rng;

use crate::crypt::seals_to;
use crate::crypt::ChaCha20Poly1305;
use crate::crypt::Secp256k1Secret;
use crate::error::InternalError;
use crate::error::RequestError;
use crate::error::RuntimeError;

verus! {

/// Whether the password-hash check of `password` against the PHC text
/// `hash` succeeds: the hash parses, recomputation with its own salt and
/// parameters matches its hash bytes. Deterministic in both arguments.
pub uninterp spec fn phc_verifies(hash: Seq<char>, password: Seq<char>) -> bool;

/// Whether the PHC text `hash` parses as a well-formed password hash.
/// Deterministic in its argument.
pub uninterp spec fn phc_wellformed(hash: Seq<char>) -> bool;

/// Whether the password-independent validation that verification performs
/// on the parsed `hash` succeeds: a supported algorithm identifier and
/// version, parameter values the hasher accepts, and salt and output sizes
/// within its limits. Deterministic in its argument.
pub uninterp spec fn phc_params_computable(hash: Seq<char>) -> bool;

/// Outcome of checking one password against one stored PHC text.
#[derive(Debug, PartialEq, Eq, Structural, Clone, Copy)]
enum PhcCheck {
    /// The hash parses and the password matches it.
    Match,
    /// The hash parses and the password does not match it.
    Mismatch,
    /// The stored text is not a well-formed hash.
    Malformed,
    /// The hashing primitive failed while recomputing.
    Failure,
}

/// Relies on argon2's `hash_password` with a fresh `SaltString::generate`
/// salt and default parameters: the result is a well-formed PHC text,
/// carrying a supported algorithm, version and parameters, that verifies
/// exactly the password just hashed; hashing fails only for passwords
/// longer than 2^32 - 1 bytes.
#[verifier::external_body]
fn phc_hash(password: &str) -> (r: Result<String, ()>)
    ensures
        r matches Ok(h) ==> (phc_wellformed(h@) && phc_params_computable(h@) && phc_verifies(
            h@,
            password@,
        )),
        r is Err ==> password@.len() * 4 > 0xFFFFFFFF,
{
    let salt = SaltString::generate(ChaCha12Rng::from_entropy());
    match Argon2::default().hash_password(password.as_bytes(), &salt) {
        Ok(h) => Ok(h.to_string()),
        Err(_) => Err(()),
    }
}

/// Relies on argon2's `PasswordHash::new`, whose success is what
/// `phc_wellformed` names, and `verify_password`, whose success on the
/// parsed hash is what `phc_verifies` names. The hash-determined checks of
/// verification — `Params`, `Algorithm` and `Version` extraction and the
/// salt and output-size limits — are what `phc_params_computable` names;
/// once they pass, the only failure left for a password within the length
/// limit is `password_hash::Error::Password`, a mismatch.
#[verifier::external_body]
fn phc_check(hash: &str, password: &str) -> (r: PhcCheck)
    ensures
        r is Match <==> phc_verifies(hash@, password@),
        r is Malformed <==> !phc_wellformed(hash@),
        r is Mismatch <== (phc_wellformed(hash@) && phc_params_computable(hash@)
            && !phc_verifies(hash@, password@) && password@.len() * 4 <= 0xFFFFFFFF),
{
    match PasswordHash::new(hash) {
        Ok(parsed) => match Argon2::default().verify_password(password.as_bytes(), &parsed) {
            Ok(()) => PhcCheck::Match,
            Err(argon2::password_hash::Error::Password) => PhcCheck::Mismatch,
            Err(_) => PhcCheck::Failure,
        },
        Err(_) => PhcCheck::Malformed,
    }
}

/// A member identity as this node stores it.
#[derive(Debug)]
pub struct Member {
    /// The identity's resource locator, as text.
    pub resouse: String,
    pub public_key: String,
    /// When the member registered, in seconds since the epoch.
    pub timestamp: i64,
    pub profile: MemberProfile,
    pub credential: MemberCredentials,
}

/// A member's public profile text fields.
#[derive(Debug)]
pub struct MemberProfile {
    pub name: String,
    pub bio: String,
    pub location: String,
    pub url: String,
}

/// One identity's stored credential.
#[derive(Debug)]
pub struct MemberCredentials {
    email: String,
    password: String,
    private_key: String,
}

/// The mathematical contents of a credential.
pub struct MemberCredentialsView {
    pub email: Seq<char>,
    pub password: Seq<char>,
    pub private_key: Seq<char>,
}

impl View for MemberCredentials {
    type V = MemberCredentialsView;

    closed spec fn view(&self) -> MemberCredentialsView {
        MemberCredentialsView {
            email: self.email@,
            password: self.password@,
            private_key: self.private_key@,
        }
    }
}

impl MemberCredentials {
    /// Register an identity: hash the password under a fresh random salt,
    /// generate a fresh private key and store it only sealed under the
    /// master key `crypt`. Fails only if the hashing primitive does.
    pub fn new(email: &str, password: &str, crypt: &ChaCha20Poly1305) -> (r: Result<
        Self,
        RuntimeError,
    >)
        requires
            crypt.wf(),
        ensures
            r matches Ok(c) ==> (c@.email == email@ && phc_wellformed(c@.password)
                && phc_params_computable(c@.password) && phc_verifies(c@.password, password@)),
            r matches Ok(c) ==> (exists|sk: Seq<u8>|
                sk.len() == 32 && seals_to(crypt@, c@.private_key, sk)),
            r is Err ==> password@.len() * 4 > 0xFFFFFFFF,
            r is Err ==> r == Err::<Self, RuntimeError>(
                RuntimeError::ServerError(InternalError::PasswordHash),
            ),
    {
        let hashed = match Self::password_hash(password) {
            Ok(h) => h,
            Err(e) => { return Err(e) },
        };
        let sealed = match Self::private_key(crypt) {
            Ok(t) => t,
            Err(e) => { return Err(e) },
        };
        Ok(MemberCredentials { email: email.to_owned(), password: hashed, private_key: sealed })
    }

    /// Check an attempted password against the stored hash. Succeeds exactly
    /// when the hash verifies the password; a malformed stored hash is
    /// reported as an internal error, never as a wrong password; a wrong
    /// password is never reported when the hash in fact verifies; and on a
    /// stored hash this vault created, a non-matching password within the
    /// hasher's length limit is reported as exactly the wrong-password
    /// error.
    pub fn verify(&self, password: &str) -> (r: Result<(), RuntimeError>)
        ensures
            r is Ok <==> phc_verifies(self@.password, password@),
            (phc_wellformed(self@.password) && phc_params_computable(self@.password)
                && !phc_verifies(self@.password, password@) && password@.len() * 4
                <= 0xFFFFFFFF) ==> r == Err::<(), RuntimeError>(
                RuntimeError::RequestError(RequestError::InvalidPassword),
            ),
            !phc_wellformed(self@.password) ==> r == Err::<(), RuntimeError>(
                RuntimeError::ServerError(InternalError::MalformedPasswordHash),
            ),
            r == Err::<(), RuntimeError>(
                RuntimeError::RequestError(RequestError::InvalidPassword),
            ) ==> !phc_verifies(self@.password, password@),
    {
        match phc_check(self.password.as_str(), password) {
            PhcCheck::Match => Ok(()),
            PhcCheck::Mismatch => Err(RuntimeError::RequestError(RequestError::InvalidPassword)),
            PhcCheck::Malformed => Err(
                RuntimeError::ServerError(InternalError::MalformedPasswordHash),
            ),
            PhcCheck::Failure => Err(RuntimeError::ServerError(InternalError::PasswordHash)),
        }
    }

    /// The identity this credential belongs to.
    pub fn email(&self) -> (r: &String)
        ensures
            r@ == self@.email,
    {
        &self.email
    }

    /// The stored self-contained password hash text.
    pub fn stored_password_hash(&self) -> (r: &String)
        ensures
            r@ == self@.password,
    {
        &self.password
    }

    /// The stored private key: tagged base64 of its encryption under the
    /// master key, never the plaintext.
    pub fn sealed_private_key(&self) -> (r: &String)
        ensures
            r@ == self@.private_key,
    {
        &self.private_key
    }

    /// Hash a password with a fresh random salt and default cost parameters.
    fn password_hash(password: &str) -> (r: Result<String, RuntimeError>)
        ensures
            r matches Ok(h) ==> (phc_wellformed(h@) && phc_params_computable(h@)
                && phc_verifies(h@, password@)),
            r is Err ==> password@.len() * 4 > 0xFFFFFFFF,
            r is Err ==> r == Err::<String, RuntimeError>(
                RuntimeError::ServerError(InternalError::PasswordHash),
            ),
    {
        match phc_hash(password) {
            Ok(h) => Ok(h),
            Err(_) => Err(RuntimeError::ServerError(InternalError::PasswordHash)),
        }
    }

    /// Generate a fresh private key and return it sealed under `crypt` as
    /// tagged text; the plaintext scalar is dropped on return.
    fn private_key(crypt: &ChaCha20Poly1305) -> (r: Result<String, RuntimeError>)
        requires
            crypt.wf(),
        ensures
            r matches Ok(t) && (exists|sk: Seq<u8>| sk.len() == 32 && seals_to(crypt@, t@, sk)),
    {
        let secret = Secp256k1Secret::generate();
        match secret.serialize(crypt) {
            Ok(t) => {
                let text = t.to_string();
                proof {
                    assert(seals_to(crypt@, text@, secret@));
                }
                Ok(text)
            },
            Err(e) => Err(e),
        }
    }
}

} // verus!
