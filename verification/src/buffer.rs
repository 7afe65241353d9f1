//! The byte store of a pipe: `bytes::BytesMut`, seen by the verifier as a
//! sequence of bytes. Nothing here is proved; each contract restates what the
//! `bytes` crate does.

use bytes::Buf;
use bytes::BytesMut;
use vstd::prelude::*;

verus! {

/// `bytes::BytesMut`: opaque here, known only through [`buffered`].
#[verifier::external_type_specification]
#[verifier::external_body]
pub struct ExBytesMut(bytes::BytesMut);

/// The bytes that a `BytesMut` holds, front first.
pub uninterp spec fn buffered(b: BytesMut) -> Seq<u8>;

/// `BytesMut::new`: a store that holds no bytes.
#[verifier::external_body]
pub(crate) fn buffer_new() -> (b: BytesMut)
    ensures
        buffered(b) == Seq::<u8>::empty(),
{
    BytesMut::new()
}

/// `BytesMut::len`: the number of bytes held.
#[verifier::external_body]
pub(crate) fn buffer_len(b: &BytesMut) -> (n: usize)
    ensures
        n == buffered(*b).len(),
{
    b.len()
}

/// `Buf::remaining` for `BytesMut`: the number of bytes still to be consumed,
/// which is all of them.
#[verifier::external_body]
pub(crate) fn buffer_remaining(b: &BytesMut) -> (n: usize)
    ensures
        n == buffered(*b).len(),
{
    b.remaining()
}

/// `Buf::has_remaining` for `BytesMut`: whether any byte is held.
#[verifier::external_body]
pub(crate) fn buffer_has_remaining(b: &BytesMut) -> (r: bool)
    ensures
        r == (buffered(*b).len() > 0),
{
    b.has_remaining()
}

/// `BytesMut::extend_from_slice`: appends `extend` behind the bytes held. The
/// crate panics when the new length overflows `usize`, so that is ruled out.
#[verifier::external_body]
pub(crate) fn buffer_extend_from_slice(b: &mut BytesMut, extend: &[u8])
    requires
        buffered(*old(b)).len() + extend@.len() <= usize::MAX,
    ensures
        buffered(*final(b)) == buffered(*old(b)) + extend@,
{
    b.extend_from_slice(extend)
}

/// `Buf::advance` for `BytesMut`: drops the first `cnt` bytes. The crate
/// panics when `cnt` exceeds what is held, so that is ruled out.
#[verifier::external_body]
pub(crate) fn buffer_advance(b: &mut BytesMut, cnt: usize)
    requires
        cnt <= buffered(*old(b)).len(),
    ensures
        buffered(*final(b)) == buffered(*old(b)).skip(cnt as int),
{
    b.advance(cnt)
}

/// `AsRef<[u8]>` for `BytesMut`: the bytes held, as a slice.
#[verifier::external_body]
pub(crate) fn buffer_as_slice(b: &BytesMut) -> (s: &[u8])
    ensures
        s@ == buffered(*b),
{
    b.as_ref()
}

} // verus!
