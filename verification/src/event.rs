//! Data carried over the broadcast layer.
//!
//! The event stream itself — connections, wakers, timers — lives outside
//! this library; only the payload types are modelled here.

use vstd::prelude::*;

verus! {

/// A broadcast event. It carries no payload yet.
#[derive(Debug, PartialEq, Eq, Structural, Clone)]
pub struct Event {}

/// A placeholder stream element.
pub struct UStream {}

/// The connected stream slots. At runtime a shared read-write lock wraps
/// them; that is concurrency plumbing outside this library, and only the
/// slots themselves are modelled.
pub struct UStreamConnect(pub Vec<Option<UStream>>);

} // verus!
