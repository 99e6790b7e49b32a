//! A zero-cost phantom-tagged container.
//!
//! `Marker<T, M>` holds a `T` and records, in its type alone, the semantic
//! origin `M` of the value. Two markers over byte-identical contents but
//! different `M` never unify, so a value of one encoding stage cannot be
//! passed where another stage is expected without an explicit conversion.

use vstd::prelude::*;

verus! {

/// A value of type `T` tagged at the type level with the marker `M`.
/// `M` carries no runtime data and adds no size.
#[derive(Debug, PartialEq)]
#[verifier::reject_recursive_types(M)]
pub struct Marker<T, M>(pub T, pub core::marker::PhantomData<M>);

impl<T: Clone, M> Clone for Marker<T, M> {
    fn clone(&self) -> Self {
        Marker(self.0.clone(), core::marker::PhantomData)
    }
}

impl<T, M> Marker<T, M> {
    /// Wrap a value under the marker `M`.
    pub fn new(v: T) -> (r: Self)
        ensures
            r.0 == v,
    {
        Marker(v, core::marker::PhantomData)
    }
}

} // verus!
