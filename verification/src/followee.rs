//! Followed identities as this node stores them.
//!
//! A followee's private key is held only in sealed, tagged-encoded form;
//! the optional symmetric-key fields anticipate a key-rotation scheme that
//! has no flow here yet.

use vstd::prelude::*;

verus! {

/// A remote identity this node follows.
#[derive(Debug)]
pub struct Followee {
    /// The identity's resource locator, as text.
    pub resouse: String,
    pub public_key: String,
    pub credential: FolloweeCredentials,
}

/// Key material stored for a followee.
#[derive(Debug)]
pub struct FolloweeCredentials {
    /// The sealed private key, as tagged base64 text.
    pub private_key: String,
    pub symmetric_key: Option<String>,
    pub expires: Option<String>,
    pub synmmetric_key_next: Option<String>,
    pub expires_next: Option<String>,
}

} // verus!
