use vstd::prelude::*;

use bytes::BufMut;
use bytes::BytesMut;

verus! {

/// `bytes::BytesMut`, declared so the buffer types of this crate can hold
/// one. The value is opaque to Verus; `bytes_mut_view` names its contents.
#[verifier::external_type_specification]
#[verifier::external_body]
pub struct ExBytesMut(BytesMut);

/// The byte contents of a `bytes::BytesMut`, in order.
pub uninterp spec fn bytes_mut_view(b: BytesMut) -> Seq<u8>;

/// Relies on bytes::BytesMut::new: a buffer with no contents.
#[verifier::external_body]
pub(crate) fn bm_new() -> (r: BytesMut)
    ensures
        bytes_mut_view(r) == Seq::<u8>::empty(),
{
    BytesMut::new()
}

/// Relies on bytes::BytesMut::with_capacity: a buffer with no contents. The
/// capacity is an allocation hint with no observable contract; a request
/// above the maximum allocation size panics, which the requires rules out.
#[verifier::external_body]
pub(crate) fn bm_with_capacity(capacity: usize) -> (r: BytesMut)
    requires
        capacity <= isize::MAX,
    ensures
        bytes_mut_view(r) == Seq::<u8>::empty(),
{
    BytesMut::with_capacity(capacity)
}

/// Relies on bytes::BufMut::put_slice for BytesMut: appends the bytes of
/// `src`, growing the buffer as needed. It panics only when the total length
/// would pass the maximum allocation size, which the requires rules out.
#[verifier::external_body]
pub(crate) fn bm_put_slice(b: &mut BytesMut, src: &[u8])
    requires
        bytes_mut_view(*old(b)).len() + src@.len() <= isize::MAX,
    ensures
        bytes_mut_view(*final(b)) == bytes_mut_view(*old(b)) + src@,
{
    b.put_slice(src);
}

/// Relies on bytes::BufMut::put_u8 for BytesMut: appends one byte.
#[verifier::external_body]
pub(crate) fn bm_put_u8(b: &mut BytesMut, value: u8)
    requires
        bytes_mut_view(*old(b)).len() + 1 <= isize::MAX,
    ensures
        bytes_mut_view(*final(b)) == bytes_mut_view(*old(b)).push(value),
{
    b.put_u8(value);
}

/// Relies on the AsRef impl of bytes::BytesMut: the contents as a byte
/// slice. A buffer never holds more than the maximum allocation size of
/// bytes, which its length tracking states.
#[verifier::external_body]
pub(crate) fn bm_as_slice(b: &BytesMut) -> (r: &[u8])
    ensures
        r@ == bytes_mut_view(*b),
        r@.len() <= isize::MAX,
{
    b.as_ref()
}

/// Relies on bytes::Clone for BytesMut: a fresh buffer with equal contents.
#[verifier::external_body]
pub(crate) fn bm_clone(b: &BytesMut) -> (r: BytesMut)
    ensures
        bytes_mut_view(r) == bytes_mut_view(*b),
{
    b.clone()
}

/// Relies on bytes::BytesMut::clear: removes all contents.
#[verifier::external_body]
pub(crate) fn bm_clear(b: &mut BytesMut)
    ensures
        bytes_mut_view(*final(b)) == Seq::<u8>::empty(),
{
    b.clear();
}

/// Relies on slice::fill reached through the DerefMut impl of
/// bytes::BytesMut: overwrites every byte the buffer holds with zero.
#[verifier::external_body]
pub(crate) fn bm_zero_fill(b: &mut BytesMut)
    ensures
        bytes_mut_view(*final(b)) == Seq::new(bytes_mut_view(*old(b)).len(), |i: int| 0u8),
{
    b.fill(0u8);
}

} // verus!
