//! The destination of a read: `tokio::io::ReadBuf`, seen by the verifier as
//! the bytes filled in so far and a fixed capacity. Nothing here is proved;
//! each contract restates what `tokio` does.

use tokio::io::ReadBuf;
use vstd::prelude::*;

verus! {

/// `tokio::io::ReadBuf`: opaque here, known only through [`filled`] and
/// [`capacity`].
#[verifier::external_type_specification]
#[verifier::external_body]
pub struct ExReadBuf<'a>(tokio::io::ReadBuf<'a>);

/// The bytes that have been filled into a `ReadBuf`, first to last.
pub uninterp spec fn filled(b: ReadBuf<'_>) -> Seq<u8>;

/// The number of bytes that a `ReadBuf` can hold in all.
pub uninterp spec fn capacity(b: ReadBuf<'_>) -> nat;

/// The room that is left in a `ReadBuf`.
pub open spec fn room(b: ReadBuf<'_>) -> nat {
    if filled(b).len() <= capacity(b) {
        (capacity(b) - filled(b).len()) as nat
    } else {
        0
    }
}

/// `ReadBuf::remaining`: the capacity that is not filled yet. The filled part
/// never exceeds the capacity.
#[verifier::external_body]
pub(crate) fn read_buf_remaining(b: &ReadBuf<'_>) -> (n: usize)
    ensures
        filled(*b).len() + n == capacity(*b),
{
    b.remaining()
}

/// `ReadBuf::put_slice`: appends `src` to the filled part and leaves the
/// capacity as it was. `tokio` panics when `src` does not fit, so that is
/// ruled out.
#[verifier::external_body]
pub(crate) fn read_buf_put_slice(b: &mut ReadBuf<'_>, src: &[u8])
    requires
        filled(*old(b)).len() + src@.len() <= capacity(*old(b)),
    ensures
        filled(*final(b)) == filled(*old(b)) + src@,
        capacity(*final(b)) == capacity(*old(b)),
{
    b.put_slice(src)
}

} // verus!
