//! The growable byte buffer of the `algorithm` crate, as the engine uses it:
//! bytes are appended at the back and consumed from the front.
use vstd::prelude::*;
use algorithm::buf::BinaryMut;

verus! {

#[verifier::external_type_specification]
#[verifier::external_body]
pub struct ExBinaryMut(BinaryMut);

/// The unread bytes of a buffer, from its cursor to its write position.
pub uninterp spec fn buf_bytes(b: BinaryMut) -> Seq<u8>;

/// Relies on BinaryMut::new: a buffer holding no bytes.
#[verifier::external_body]
pub(crate) fn buf_new() -> (r: BinaryMut)
    ensures
        buf_bytes(r) == Seq::<u8>::empty(),
{
    BinaryMut::new()
}

/// Relies on BinaryMut::len: the number of unread bytes (write position minus cursor).
#[verifier::external_body]
pub(crate) fn buf_len(b: &BinaryMut) -> (r: usize)
    ensures
        r == buf_bytes(*b).len(),
{
    b.len()
}

/// Relies on Bt::chunk of BinaryMut: the unread bytes as one slice.
#[verifier::external_body]
pub(crate) fn buf_chunk(b: &BinaryMut) -> (r: &[u8])
    ensures
        r@ == buf_bytes(*b),
{
    algorithm::buf::Bt::chunk(b)
}

/// Relies on BinaryMut::put_slice: appends the bytes after the unread ones
/// (a memory re-sort it may do keeps the unread bytes).
#[verifier::external_body]
pub(crate) fn buf_put_slice(b: &mut BinaryMut, s: &[u8])
    ensures
        buf_bytes(*final(b)) == buf_bytes(*old(b)) + s@,
{
    b.put_slice(s);
}

/// Relies on Bt::advance of BinaryMut: moves the cursor past `n` unread bytes.
/// Moving past the write position would leave `len` to underflow, so `n` is bounded.
#[verifier::external_body]
pub(crate) fn buf_advance(b: &mut BinaryMut, n: usize)
    requires
        n <= buf_bytes(*old(b)).len(),
    ensures
        buf_bytes(*final(b)) == buf_bytes(*old(b)).skip(n as int),
{
    algorithm::buf::Bt::advance(b, n)
}

/// Relies on BinaryMut::clear: cursor and write position both return to zero.
#[verifier::external_body]
pub(crate) fn buf_clear(b: &mut BinaryMut)
    ensures
        buf_bytes(*final(b)) == Seq::<u8>::empty(),
{
    b.clear()
}

} // verus!
