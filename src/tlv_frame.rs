//! The type-length-value frame shared by TLVs and all sub-TLV namespaces.

use vstd::prelude::*;
use crate::wire::ParseError;

verus! {

/// Splits the frame at the front of `s` into its code, its value bytes and
/// the number of bytes the whole frame takes.  The value never reaches past
/// the declared length, and a declared length past the end of `s` is refused.
pub open spec fn spec_split_tlv(s: Seq<u8>) -> Result<(u8, Seq<u8>, nat), ParseError> {
    if s.len() < 2 {
        Err(ParseError::Incomplete)
    } else if s.len() - 2 < s[1] {
        Err(ParseError::Incomplete)
    } else {
        Ok((s[0], s.subrange(2, 2 + s[1] as int), (2 + s[1]) as nat))
    }
}

/// The frame for `code` around `value`.
pub open spec fn tlv_bytes(code: u8, value: Seq<u8>) -> Seq<u8> {
    seq![code, value.len() as u8] + value
}

pub proof fn lemma_split_tlv(code: u8, value: Seq<u8>, rest: Seq<u8>)
    requires
        value.len() <= 255,
    ensures
        spec_split_tlv(tlv_bytes(code, value) + rest) == Ok::<(u8, Seq<u8>, nat), ParseError>(
            (code, value, value.len() + 2),
        ),
{
    let s = tlv_bytes(code, value) + rest;
    assert(s[1] == value.len() as u8);
    assert(s.subrange(2, 2 + value.len() as int) =~= value);
}

/// A declared length that runs past the end of the input is always refused.
pub proof fn lemma_split_tlv_truncated(s: Seq<u8>)
    requires
        s.len() >= 2,
        s[1] > s.len() - 2,
    ensures
        spec_split_tlv(s) == Err::<(u8, Seq<u8>, nat), ParseError>(ParseError::Incomplete),
{
}

pub fn split_tlv(input: &[u8]) -> (r: Result<(u8, &[u8], usize), ParseError>)
    ensures
        match r {
            Ok((c, v, n)) => spec_split_tlv(input@) == Ok::<(u8, Seq<u8>, nat), ParseError>(
                (c, v@, n as nat),
            ) && 2 <= n <= input@.len(),
            Err(e) => spec_split_tlv(input@) == Err::<(u8, Seq<u8>, nat), ParseError>(e),
        },
{
    if input.len() < 2 {
        return Err(ParseError::Incomplete);
    }
    let len = input[1] as usize;
    if input.len() - 2 < len {
        return Err(ParseError::Incomplete);
    }
    let value = vstd::slice::slice_subrange(input, 2, 2 + len);
    Ok((input[0], value, 2 + len))
}

} // verus!
