//! Identities that follow this node.

use vstd::prelude::*;

verus! {

/// A remote identity following this node.
#[derive(Debug)]
pub struct Follower {
    /// The identity's resource locator, as text.
    pub resouse: String,
    pub credential: FollowerCredentials,
}

/// Key material and bookkeeping stored for a follower.
#[derive(Debug)]
pub struct FollowerCredentials {
    pub public_key: String,
    /// When the follower last required anything, in seconds since the
    /// epoch.
    pub last_required_datetime: i64,
}

} // verus!
