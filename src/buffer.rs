//! Immutable, reference-counted byte buffers (`bytes::Bytes`), as seen by
//! the proofs: a handle stands for the sequence of bytes it holds.

use bytes::Bytes;
use vstd::prelude::*;

verus! {

#[verifier::external_type_specification]
#[verifier::external_body]
pub struct ExBytes(Bytes);

/// The bytes that a `Bytes` handle holds.
pub uninterp spec fn bytes_view(b: Bytes) -> Seq<u8>;

/// Relies on `From<Vec<u8>> for Bytes`: the handle holds exactly the
/// vector's bytes.
#[verifier::external_body]
pub(crate) fn bytes_from_vec(v: Vec<u8>) -> (r: Bytes)
    ensures
        bytes_view(r) == v@,
{
    Bytes::from(v)
}

/// Relies on `Bytes::new`: a handle on no bytes.
#[verifier::external_body]
pub(crate) fn empty_bytes() -> (r: Bytes)
    ensures
        bytes_view(r) == Seq::<u8>::empty(),
{
    Bytes::new()
}

/// Relies on `Bytes::len`: the number of bytes held.
#[verifier::external_body]
pub(crate) fn bytes_len(b: &Bytes) -> (r: usize)
    ensures
        r == bytes_view(*b).len(),
{
    b.len()
}

/// Relies on `Clone for Bytes`: a second handle on the same bytes.
#[verifier::external_body]
pub(crate) fn share_bytes(b: &Bytes) -> (r: Bytes)
    ensures
        bytes_view(r) == bytes_view(*b),
{
    b.clone()
}

/// Relies on `Deref for Bytes`: a slice over the bytes held.
#[verifier::external_body]
pub(crate) fn bytes_as_slice(b: &Bytes) -> (r: &[u8])
    ensures
        r@ == bytes_view(*b),
{
    b.as_ref()
}

/// A new buffer holding the bytes of `a` followed by those of `b`.
pub fn concat_bytes(a: &Bytes, b: &Bytes) -> (r: Bytes)
    ensures
        bytes_view(r) == bytes_view(*a) + bytes_view(*b),
{
    let mut v: Vec<u8> = Vec::new();
    v.extend_from_slice(bytes_as_slice(a));
    v.extend_from_slice(bytes_as_slice(b));
    proof {
        assert(v@ =~= bytes_view(*a) + bytes_view(*b));
    }
    bytes_from_vec(v)
}

} // verus!
