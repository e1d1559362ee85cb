//! SID/Label values: a 24-bit label or a 32-bit index, told apart by length alone.

use vstd::prelude::*;
use bytes::BytesMut;
use crate::buf::buf_bytes;
use crate::wire::{
    be24, be32, lemma_be24, lemma_be32, put_u24, put_u32, read_u24, read_u32, u24_bytes,
    u32_bytes, ParseError,
};

verus! {

#[derive(Debug, Clone, Copy, PartialEq, Eq)]
pub enum SidLabelValue {
    Label(u32),
    Index(u32),
}

impl SidLabelValue {
    /// A label fits in 24 bits.
    pub open spec fn spec_wf(self) -> bool {
        match self {
            SidLabelValue::Label(v) => v < 0x1000000,
            SidLabelValue::Index(_) => true,
        }
    }

    pub open spec fn spec_bytes(self) -> Seq<u8> {
        match self {
            SidLabelValue::Label(v) => u24_bytes(v),
            SidLabelValue::Index(v) => u32_bytes(v),
        }
    }

    pub open spec fn spec_value(self) -> u32 {
        match self {
            SidLabelValue::Label(v) => v,
            SidLabelValue::Index(v) => v,
        }
    }

    /// The number of bytes the value takes on the wire.
    pub fn len(&self) -> (r: u8)
        ensures
            r as nat == self.spec_bytes().len(),
    {
        match self {
            SidLabelValue::Label(_) => 3,
            SidLabelValue::Index(_) => 4,
        }
    }

    pub fn is_empty(&self) -> (r: bool)
        ensures
            r == (self.spec_bytes().len() == 0),
    {
        self.len() == 0
    }

    pub fn emit(&self, buf: &mut BytesMut)
        requires
            buf_bytes(*old(buf)).len() + self.spec_bytes().len() <= isize::MAX,
        ensures
            buf_bytes(*final(buf)) == buf_bytes(*old(buf)) + self.spec_bytes(),
    {
        match self {
            SidLabelValue::Label(v) => put_u24(buf, *v),
            SidLabelValue::Index(v) => put_u32(buf, *v),
        }
    }

    pub fn value(&self) -> (r: u32)
        ensures
            r == self.spec_value(),
    {
        match self {
            SidLabelValue::Label(v) => *v,
            SidLabelValue::Index(v) => *v,
        }
    }

    /// Decodes the whole of `input`: three bytes are a label, four an index.
    pub fn parse_be(input: &[u8]) -> (r: Result<SidLabelValue, ParseError>)
        ensures
            r == spec_decode_sid(input@),
    {
        if input.len() == 3 {
            Ok(SidLabelValue::Label(read_u24(input, 0)))
        } else if input.len() == 4 {
            Ok(SidLabelValue::Index(read_u32(input, 0)))
        } else {
            Err(ParseError::Invalid)
        }
    }
}

/// A SID/Label field of `s.len()` bytes; any length but three or four is refused.
pub open spec fn spec_decode_sid(s: Seq<u8>) -> Result<SidLabelValue, ParseError> {
    if s.len() == 3 {
        Ok(SidLabelValue::Label(be24(s, 0)))
    } else if s.len() == 4 {
        Ok(SidLabelValue::Index(be32(s, 0)))
    } else {
        Err(ParseError::Invalid)
    }
}

/// Encoding a valid SID/Label value and decoding the bytes gives the value back.
pub proof fn lemma_sid_round_trip(v: SidLabelValue)
    requires
        v.spec_wf(),
    ensures
        spec_decode_sid(v.spec_bytes()) == Ok::<SidLabelValue, ParseError>(v),
        v.spec_bytes().len() == 3 || v.spec_bytes().len() == 4,
{
    match v {
        SidLabelValue::Label(x) => {
            assert(u24_bytes(x).subrange(0, 3) =~= u24_bytes(x));
            lemma_be24(x, u24_bytes(x), 0);
        },
        SidLabelValue::Index(x) => {
            assert(u32_bytes(x).subrange(0, 4) =~= u32_bytes(x));
            lemma_be32(x, u32_bytes(x), 0);
        },
    }
}

} // verus!
