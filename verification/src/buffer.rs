//! The byte buffers that keys and values are kept in.
//!
//! `bytes::Bytes` is opaque to the verifier. What a buffer holds is named by
//! [`contents`], and the few operations the store needs are given contracts
//! over that name. Those contracts are taken on trust: each restates what
//! the `bytes` crate documents for the call it stands for. Only [`to_vec`]
//! is proved, from them.
use bytes::Bytes;
use vstd::prelude::*;
use vstd::slice::slice_to_vec;

verus! {

/// `bytes::Bytes`, made known to the verifier as a type it cannot look into.
#[verifier::external_type_specification]
#[verifier::external_body]
pub struct ExBytes(bytes::Bytes);

/// The bytes that a buffer holds, in order.
pub uninterp spec fn contents(b: Bytes) -> Seq<u8>;

/// The byte strings held by a sequence of buffers, in the same order.
pub open spec fn contents_of(s: Seq<Bytes>) -> Seq<Seq<u8>> {
    s.map_values(|b: Bytes| contents(b))
}

/// `Bytes::from(Vec<u8>)`: the buffer takes over the vector and holds exactly
/// its bytes.
#[verifier::external_body]
pub(crate) fn from_vec(v: Vec<u8>) -> (b: Bytes)
    ensures
        contents(b) == v@,
{
    Bytes::from(v)
}

/// `Bytes::as_ref`: the buffer seen as a slice of the bytes it holds.
#[verifier::external_body]
pub(crate) fn as_slice(b: &Bytes) -> (s: &[u8])
    ensures
        s@ == contents(*b),
{
    b.as_ref()
}

/// `Bytes::clone`: a second handle on the same bytes.
pub assume_specification[ <Bytes as Clone>::clone ](b: &Bytes) -> (c: Bytes)
    ensures
        contents(c) == contents(*b),
;

/// `Bytes::len`: the number of bytes held.
#[verifier::external_body]
pub(crate) fn len(b: &Bytes) -> (n: usize)
    ensures
        n == contents(*b).len(),
{
    b.len()
}

/// `Bytes == [u8]`: true exactly when the buffer holds the bytes of `s`.
#[verifier::external_body]
pub(crate) fn holds(b: &Bytes, s: &[u8]) -> (same: bool)
    ensures
        same == (contents(*b) == s@),
{
    *b == *s
}

/// The bytes of a buffer, copied out.
pub(crate) fn to_vec(b: &Bytes) -> (v: Vec<u8>)
    ensures
        v@ == contents(*b),
{
    slice_to_vec(as_slice(b))
}

} // verus!
