//! Resource bodies. A body is a `bytes::Bytes`: cheap to clone, never
//! inspected by the cache, only carried. Contracts speak of a body through
//! [`bytes_view`], the octets that it holds.

use bytes::Bytes;
use vstd::prelude::*;

verus! {

/// `bytes::Bytes`, taken as it is. Nothing inside it is visible to proofs.
#[verifier::external_type_specification]
#[verifier::external_body]
pub struct ExBytes(bytes::Bytes);

/// The octets that a `Bytes` handle holds, in order.
pub uninterp spec fn bytes_view(b: Bytes) -> Seq<u8>;

/// The octets of an optional body.
pub open spec fn body_view(b: Option<Bytes>) -> Option<Seq<u8>> {
    match b {
        Some(b) => Some(bytes_view(b)),
        None => None,
    }
}

/// `Bytes::clone`: a second handle on the same octets. Trusted: the clone
/// holds exactly what `b` holds.
#[verifier::external_body]
pub(crate) fn clone_bytes(b: &Bytes) -> (r: Bytes)
    ensures
        bytes_view(r) == bytes_view(*b),
{
    b.clone()
}

} // verus!
