//! Tagged base64 text encoding of byte strings.
//!
//! `Base64<M>` is the canonical unpadded base64 rendering of bytes that
//! originated from a value of marker type `M`. The encoding is reversible:
//! decoding the encoding of any byte sequence, including the empty one,
//! gives the bytes back, and decoding rejects every text that is not a
//! canonical encoding.

use vstd::prelude::*;

use base64::Engine;

use crate::error::InternalError;
use crate::error::RuntimeError;
use crate::marker::Marker;

verus! {

/// The canonical unpadded base64 text of a byte sequence, as the standard
/// alphabet renders it.
pub uninterp spec fn b64_of(b: Seq<u8>) -> Seq<char>;

/// Relies on base64's `STANDARD_NO_PAD` engine: `encode` renders bytes as
/// canonical unpadded base64 text of length ceil(4n/3).
#[verifier::external_body]
fn b64_encode_raw(data: &[u8]) -> (r: String)
    ensures
        r@ == b64_of(data@),
        r@.len() == (data@.len() * 4 + 2) / 3,
{
    base64::engine::general_purpose::STANDARD_NO_PAD.encode(data)
}

/// Relies on base64's `STANDARD_NO_PAD` engine: `decode` accepts exactly the
/// canonical unpadded encodings (padding characters and nonzero trailing
/// bits are rejected) and inverts `encode`.
#[verifier::external_body]
fn b64_decode_raw(s: &str) -> (r: Result<Vec<u8>, ()>)
    ensures
        r matches Ok(b) ==> s@ == b64_of(b@),
        r matches Ok(b) ==> (forall|b2: Seq<u8>| s@ == #[trigger] b64_of(b2) ==> b2 == b@),
        r is Err ==> (forall|b: Seq<u8>| s@ != #[trigger] b64_of(b)),
{
    match base64::engine::general_purpose::STANDARD_NO_PAD.decode(s) {
        Ok(v) => Ok(v),
        Err(_) => Err(()),
    }
}

/// Base64 text whose type records what kind of bytes it encodes.
#[derive(Debug, PartialEq, Clone)]
#[verifier::reject_recursive_types(M)]
pub struct Base64<M>(Marker<String, M>);

impl<M> View for Base64<M> {
    type V = Seq<char>;

    closed spec fn view(&self) -> Seq<char> {
        self.0.0@
    }
}

impl<M> Base64<M> {
    /// Encode arbitrary bytes as tagged base64 text.
    pub fn encode(data: &[u8]) -> (r: Self)
        ensures
            r@ == b64_of(data@),
            r@.len() == (data@.len() * 4 + 2) / 3,
    {
        Base64(Marker::new(b64_encode_raw(data)))
    }

    /// Decode tagged base64 text back into bytes. Succeeds exactly on the
    /// canonical encodings, and on the encoding of `b` returns `b` itself.
    pub fn decode(&self) -> (r: Result<Vec<u8>, RuntimeError>)
        ensures
            r matches Ok(b) ==> self@ == b64_of(b@),
            r matches Ok(b) ==> (forall|b2: Seq<u8>| self@ == #[trigger] b64_of(b2) ==> b2 == b@),
            r is Err ==> (forall|b: Seq<u8>| self@ != #[trigger] b64_of(b)),
            r is Err ==> r == Err::<Vec<u8>, RuntimeError>(
                RuntimeError::ServerError(InternalError::Base64DecodeError),
            ),
    {
        match b64_decode_raw(self.0.0.as_str()) {
            Ok(v) => Ok(v),
            Err(_) => Err(RuntimeError::ServerError(InternalError::Base64DecodeError)),
        }
    }

    /// Wrap existing text under the marker, to be validated by `decode`.
    pub fn from_text(text: String) -> (r: Self)
        ensures
            r@ == text@,
    {
        Base64(Marker::new(text))
    }

    /// Give up the tag and return the bare text.
    pub fn to_string(self) -> (r: String)
        ensures
            r@ == self@,
    {
        self.0.0
    }
}

} // verus!
