use bytes::BytesMut;
use vstd::prelude::*;

verus! {

#[verifier::external_type_specification]
#[verifier::external_body]
pub struct ExBytesMut(BytesMut);

/// The bytes that a `BytesMut` holds, from its first to its last.
pub uninterp spec fn bytes_mut_contents(b: BytesMut) -> Seq<u8>;

/// `bytes::BytesMut::zeroed`: a buffer that holds `len` zero bytes.
#[verifier::external_body]
pub(crate) fn bytes_mut_zeroed(len: usize) -> (r: BytesMut)
    ensures
        bytes_mut_contents(r) == Seq::new(len as nat, |i: int| 0u8),
{
    BytesMut::zeroed(len)
}

/// `bytes::BytesMut::with_capacity`: an empty buffer.
#[verifier::external_body]
pub(crate) fn bytes_mut_with_capacity(capacity: usize) -> (r: BytesMut)
    ensures
        bytes_mut_contents(r) == Seq::<u8>::empty(),
{
    BytesMut::with_capacity(capacity)
}

/// `bytes::BytesMut::extend_from_slice`: appends the bytes of `extend`.
#[verifier::external_body]
pub(crate) fn bytes_mut_extend_from_slice(b: &mut BytesMut, extend: &[u8])
    ensures
        bytes_mut_contents(*final(b)) == bytes_mut_contents(*old(b)) + extend@,
{
    b.extend_from_slice(extend)
}

/// Writes `src` over the bytes of `b` from `at` on, through the mutable
/// slice that `BytesMut`'s `DerefMut` gives (`copy_from_slice`).
#[verifier::external_body]
pub(crate) fn bytes_mut_copy_at(b: &mut BytesMut, at: usize, src: &[u8])
    requires
        at + src@.len() <= bytes_mut_contents(*old(b)).len(),
    ensures
        bytes_mut_contents(*final(b)) == bytes_mut_contents(*old(b)).subrange(0, at as int)
            + src@ + bytes_mut_contents(*old(b)).subrange(
            at + src@.len(),
            bytes_mut_contents(*old(b)).len() as int,
        ),
{
    b[at..at + src.len()].copy_from_slice(src)
}

} // verus!
