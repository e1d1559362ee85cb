//! Big-endian integer fields and the error type shared by all decoders.

use vstd::prelude::*;
use bytes::BytesMut;
use crate::buf::{buf_bytes, put_u8};

verus! {

/// Why a decoder refused its input.
#[derive(Debug, Clone, Copy, PartialEq, Eq)]
pub enum ParseError {
    /// Fewer bytes remain than a fixed field or a declared length needs.
    Incomplete,
    /// The packet does not start with the protocol discriminator.
    BadDiscriminator,
    /// A field holds a value that the format does not allow.
    Invalid,
}

pub open spec fn be16(s: Seq<u8>, i: int) -> u16 {
    (s[i] as int * 256 + s[i + 1] as int) as u16
}

pub open spec fn be24(s: Seq<u8>, i: int) -> u32 {
    (s[i] as int * 65536 + s[i + 1] as int * 256 + s[i + 2] as int) as u32
}

pub open spec fn be32(s: Seq<u8>, i: int) -> u32 {
    (s[i] as int * 16777216 + s[i + 1] as int * 65536 + s[i + 2] as int * 256
        + s[i + 3] as int) as u32
}

pub open spec fn u16_bytes(v: u16) -> Seq<u8> {
    seq![(v / 256) as u8, (v % 256) as u8]
}

pub open spec fn u24_bytes(v: u32) -> Seq<u8> {
    seq![((v / 65536) % 256) as u8, ((v / 256) % 256) as u8, (v % 256) as u8]
}

pub open spec fn u32_bytes(v: u32) -> Seq<u8> {
    seq![(v / 16777216) as u8, ((v / 65536) % 256) as u8, ((v / 256) % 256) as u8, (v % 256) as u8]
}

pub proof fn lemma_be16(v: u16, s: Seq<u8>, i: int)
    requires
        0 <= i,
        i + 2 <= s.len(),
        s.subrange(i, i + 2) == u16_bytes(v),
    ensures
        be16(s, i) == v,
{
    assert(s[i] == s.subrange(i, i + 2)[0]);
    assert(s[i + 1] == s.subrange(i, i + 2)[1]);
}

pub proof fn lemma_be24(v: u32, s: Seq<u8>, i: int)
    requires
        v < 0x1000000,
        0 <= i,
        i + 3 <= s.len(),
        s.subrange(i, i + 3) == u24_bytes(v),
    ensures
        be24(s, i) == v,
{
    assert(s[i] == s.subrange(i, i + 3)[0]);
    assert(s[i + 1] == s.subrange(i, i + 3)[1]);
    assert(s[i + 2] == s.subrange(i, i + 3)[2]);
}

pub proof fn lemma_be32(v: u32, s: Seq<u8>, i: int)
    requires
        0 <= i,
        i + 4 <= s.len(),
        s.subrange(i, i + 4) == u32_bytes(v),
    ensures
        be32(s, i) == v,
{
    assert(s[i] == s.subrange(i, i + 4)[0]);
    assert(s[i + 1] == s.subrange(i, i + 4)[1]);
    assert(s[i + 2] == s.subrange(i, i + 4)[2]);
    assert(s[i + 3] == s.subrange(i, i + 4)[3]);
}

/// The three low-order bytes of `value`, most significant first.
pub fn u32_u8_3(value: u32) -> (r: [u8; 3])
    ensures
        r@ == u24_bytes(value),
{
    let r = [((value / 65536) % 256) as u8, ((value / 256) % 256) as u8, (value % 256) as u8];
    assert(r@ =~= u24_bytes(value));
    r
}

pub fn put_u16(b: &mut BytesMut, v: u16)
    requires
        buf_bytes(*old(b)).len() + 2 <= isize::MAX,
    ensures
        buf_bytes(*final(b)) == buf_bytes(*old(b)) + u16_bytes(v),
{
    put_u8(b, (v / 256) as u8);
    put_u8(b, (v % 256) as u8);
    assert(buf_bytes(*b) =~= buf_bytes(*old(b)) + u16_bytes(v));
}

pub fn put_u24(b: &mut BytesMut, v: u32)
    requires
        buf_bytes(*old(b)).len() + 3 <= isize::MAX,
    ensures
        buf_bytes(*final(b)) == buf_bytes(*old(b)) + u24_bytes(v),
{
    put_u8(b, ((v / 65536) % 256) as u8);
    put_u8(b, ((v / 256) % 256) as u8);
    put_u8(b, (v % 256) as u8);
    assert(buf_bytes(*b) =~= buf_bytes(*old(b)) + u24_bytes(v));
}

pub fn put_u32(b: &mut BytesMut, v: u32)
    requires
        buf_bytes(*old(b)).len() + 4 <= isize::MAX,
    ensures
        buf_bytes(*final(b)) == buf_bytes(*old(b)) + u32_bytes(v),
{
    put_u8(b, (v / 16777216) as u8);
    put_u8(b, ((v / 65536) % 256) as u8);
    put_u8(b, ((v / 256) % 256) as u8);
    put_u8(b, (v % 256) as u8);
    assert(buf_bytes(*b) =~= buf_bytes(*old(b)) + u32_bytes(v));
}

pub fn read_u16(s: &[u8], i: usize) -> (r: u16)
    requires
        i + 2 <= s@.len(),
    ensures
        r == be16(s@, i as int),
{
    s[i] as u16 * 256 + s[i + 1] as u16
}

pub fn read_u24(s: &[u8], i: usize) -> (r: u32)
    requires
        i + 3 <= s@.len(),
    ensures
        r == be24(s@, i as int),
{
    s[i] as u32 * 65536 + s[i + 1] as u32 * 256 + s[i + 2] as u32
}

pub fn read_u32(s: &[u8], i: usize) -> (r: u32)
    requires
        i + 4 <= s@.len(),
    ensures
        r == be32(s@, i as int),
{
    s[i] as u32 * 16777216 + s[i + 1] as u32 * 65536 + s[i + 2] as u32 * 256 + s[i + 3] as u32
}

} // verus!
