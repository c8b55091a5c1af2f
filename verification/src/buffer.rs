//! The receive buffer, a [`bytes::BytesMut`].
//!
//! The functions here make one call each into the `bytes` crate. Their contracts
//! speak of the bytes that a buffer holds, [`contents`]; they are taken from that
//! crate's documentation and are not proved.
use vstd::prelude::*;
use bytes::BytesMut;

verus! {

/// Makes [`bytes::BytesMut`] known as an opaque type.
#[verifier::external_type_specification]
#[verifier::external_body]
pub struct ExBytesMut(bytes::BytesMut);

/// The bytes that a buffer holds, from its start to its length.
pub uninterp spec fn contents(buf: BytesMut) -> Seq<u8>;

/// Calls [`BytesMut::zeroed`]: the new buffer holds `len` zero bytes. An
/// allocation has at most `isize::MAX` bytes; asking for more panics.
#[verifier::external_body]
pub(crate) fn zeroed(len: usize) -> (r: BytesMut)
    requires
        len <= isize::MAX,
    ensures
        contents(r) == Seq::new(len as nat, |i: int| 0u8),
{
    BytesMut::zeroed(len)
}

/// Calls [`BytesMut::split_to`]: the first `at` bytes are handed out and the rest
/// stays. It panics where there are fewer than `at`.
#[verifier::external_body]
pub(crate) fn split_to(buf: &mut BytesMut, at: usize) -> (r: BytesMut)
    requires
        at <= contents(*old(buf)).len(),
    ensures
        contents(r) == contents(*old(buf)).take(at as int),
        contents(*final(buf)) == contents(*old(buf)).skip(at as int),
{
    buf.split_to(at)
}

/// Calls [`BytesMut`]'s `as_mut`: the bytes of the buffer, to be written in place.
/// What is written there is what the buffer holds afterwards; their number stays.
#[verifier::external_body]
pub(crate) fn as_mut_slice(buf: &mut BytesMut) -> (r: &mut [u8])
    ensures
        r@ == contents(*old(buf)),
        final(r)@.len() == r@.len(),
        contents(*final(buf)) == final(r)@,
{
    buf.as_mut()
}

} // verus!
