//! The growable output buffer that every emitter appends to.

use vstd::prelude::*;
use bytes::BufMut;
use byteorder::ByteOrder;
use bytes::BytesMut;

verus! {

/// `bytes::BytesMut`, carried opaquely; what it holds is `buf_bytes`.
#[verifier::external_type_specification]
#[verifier::external_body]
pub struct ExBytesMut(bytes::BytesMut);

/// The bytes held by an output buffer, in order.
pub uninterp spec fn buf_bytes(b: BytesMut) -> Seq<u8>;

/// Relies on `BytesMut::len`: the number of bytes held.
#[verifier::external_body]
pub(crate) fn buf_len(b: &BytesMut) -> (r: usize)
    ensures
        r as nat == buf_bytes(*b).len(),
{
    b.len()
}

/// Relies on `BufMut::put_u8` for `BytesMut`: appends one byte.  Growing the
/// buffer panics past `isize::MAX` bytes.
#[verifier::external_body]
pub(crate) fn put_u8(b: &mut BytesMut, v: u8)
    requires
        buf_bytes(*old(b)).len() + 1 <= isize::MAX,
    ensures
        buf_bytes(*final(b)) == buf_bytes(*old(b)).push(v),
{
    b.put_u8(v)
}

/// Relies on `BufMut::put_slice` for `BytesMut`: appends the bytes of `s` in
/// order.  Growing the buffer panics past `isize::MAX` bytes.
#[verifier::external_body]
pub(crate) fn put_slice(b: &mut BytesMut, s: &[u8])
    requires
        buf_bytes(*old(b)).len() + s@.len() <= isize::MAX,
    ensures
        buf_bytes(*final(b)) == buf_bytes(*old(b)) + s@,
{
    b.put_slice(s)
}

/// Relies on `byteorder::BigEndian::write_u16` over the buffer's bytes at `pos`:
/// the two bytes there become `v` in big-endian order, the rest stay.
#[verifier::external_body]
pub(crate) fn patch_u16(b: &mut BytesMut, pos: usize, v: u16)
    requires
        pos + 2 <= buf_bytes(*old(b)).len(),
    ensures
        buf_bytes(*final(b)) == buf_bytes(*old(b)).update(pos as int, (v / 256) as u8).update(
            pos + 1,
            (v % 256) as u8,
        ),
{
    byteorder::BigEndian::write_u16(&mut b[pos..pos + 2], v)
}

} // verus!
