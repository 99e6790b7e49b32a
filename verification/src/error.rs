//! Error taxonomy of the library.
//!
//! Every fallible operation returns one of these values to its immediate
//! caller; nothing is retried internally. An authentication failure on
//! decryption is kept distinct from a malformed-input failure, and a true
//! password mismatch is kept distinct from a structurally malformed stored
//! hash.

use vstd::prelude::*;

verus! {

/// Errors that a caller's request itself can provoke.
#[derive(Debug, PartialEq, Eq, Structural, Clone, Copy)]
pub enum RequestError {
    /// The attempted password does not match the stored credential.
    InvalidPassword,
}

/// Errors in the server configuration and its bootstrap state machine.
#[allow(non_camel_case_types)]
#[derive(Debug, PartialEq, Eq, Structural, Clone, Copy)]
pub enum ServerConfigError {
    /// The configuration is absent, unreadable, or missing a required field.
    InvalidConfigFile,
    /// The configuration singleton was consulted outside its lifecycle.
    getConfigRuntime,
    /// The configured bind host is not a valid address.
    InvalidHost,
    /// The configured bind port is not usable.
    InvalidPort,
    /// The TLS list holds more than one certificate/key pair.
    InvalidCert,
    /// An init run was requested although a configuration file already exists.
    AlreadyInitializedOnInitRequest,
    /// A non-init run was requested although no configuration file exists.
    MissingRequiredOnLoad,
}

/// Internal failures: cryptography, encoding, persistence.
#[derive(Debug, PartialEq, Eq, Clone)]
pub enum InternalError {
    /// The password hashing primitive itself failed.
    PasswordHash,
    /// A stored password hash is not a well-formed hash string.
    MalformedPasswordHash,
    /// Authenticated decryption rejected the input: tampered, truncated,
    /// or sealed under a different key.
    PasswordAesCrypto,
    /// A file could not be read or written; holds the path.
    FileIOError(String),
    /// A file's contents could not be parsed or rendered; holds the path.
    SerdeError(String),
    /// A text value is not a valid byte-string encoding.
    Base64DecodeError,
    /// A configuration-level failure.
    ServerConfigError(ServerConfigError),
    /// Any other internal failure, described in text.
    ServerError(String),
}

/// Top-level error: either the server's own fault or the request's.
#[derive(Debug, PartialEq, Eq, Clone)]
pub enum RuntimeError {
    ServerError(InternalError),
    RequestError(RequestError),
}

} // verus!
