//! Sub-TLVs whose code a namespace does not know: kept verbatim.

use vstd::prelude::*;
use bytes::BytesMut;
use crate::buf::{buf_bytes, put_slice};

verus! {

/// A sub-TLV whose code its namespace does not know.  `len` is the length
/// declared on the wire; emission writes the length of `data`.
#[derive(Debug, Clone, PartialEq, Eq)]
pub struct IsisSubTlvUnknown {
    pub code: u8,
    pub len: u8,
    pub data: Vec<u8>,
}

/// What an unrecognised record holds: its code, its declared length and its value bytes.
pub struct UnknownModel {
    pub code: u8,
    pub len: u8,
    pub data: Seq<u8>,
}

impl View for IsisSubTlvUnknown {
    type V = UnknownModel;

    open spec fn view(&self) -> UnknownModel {
        UnknownModel { code: self.code, len: self.len, data: self.data@ }
    }
}

/// The declared length matches the bytes kept, and fits in a length byte.
pub open spec fn unknown_wf(u: UnknownModel) -> bool {
    u.len as nat == u.data.len() && u.data.len() <= 255
}

impl IsisSubTlvUnknown {
    /// Writes the value bytes.
    pub fn emit(&self, buf: &mut BytesMut)
        requires
            buf_bytes(*old(buf)).len() + self.data@.len() <= isize::MAX,
        ensures
            buf_bytes(*final(buf)) == buf_bytes(*old(buf)) + self.data@,
    {
        put_slice(buf, self.data.as_slice());
    }

    /// Keeps all of `v` as the value of a record with code `code`.
    pub fn from_value(code: u8, v: &[u8]) -> (r: Self)
        requires
            v@.len() <= 255,
        ensures
            r@ == (UnknownModel { code, len: v@.len() as u8, data: v@ }),
    {
        IsisSubTlvUnknown { code, len: v.len() as u8, data: vstd::slice::slice_to_vec(v) }
    }
}

} // verus!
