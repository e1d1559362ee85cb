//! Router capability: the TLV and its segment-routing sub-TLV namespace.

use vstd::prelude::*;
use bytes::BytesMut;
use crate::buf::{buf_bytes, put_slice, put_u8};
use crate::codes::IsisCapCode;
use crate::ident::ipv4_at;
use crate::record::{
    emit_many, many_bytes, many_len, parse_many, many0, views,
    wf_many, fits_many, Record,
};
use crate::sid::{lemma_sid_round_trip, SidLabelValue};
use crate::tlv_frame::{lemma_split_tlv, spec_split_tlv, split_tlv, tlv_bytes};
use crate::unknown::{unknown_wf, IsisSubTlvUnknown, UnknownModel};
use crate::wire::{
    be24, be32, lemma_be24, lemma_be32, put_u24, read_u24, read_u32, u24_bytes, u32_bytes,
    ParseError,
};

verus! {

/// A SID/Label carried as a nested type-length-value: type byte, length byte, value.
pub type SidLabel = SidLabelValue;

/// Reads a nested SID/Label from the front of `s`.  The type byte is not
/// checked; a length other than three or four is refused.
pub open spec fn spec_sid_label(s: Seq<u8>) -> Result<SidLabel, ParseError> {
    if s.len() < 2 {
        Err(ParseError::Incomplete)
    } else if s[1] == 3 {
        if s.len() < 5 {
            Err(ParseError::Incomplete)
        } else {
            Ok(SidLabelValue::Label(be24(s, 2)))
        }
    } else if s[1] == 4 {
        if s.len() < 6 {
            Err(ParseError::Incomplete)
        } else {
            Ok(SidLabelValue::Index(be32(s, 2)))
        }
    } else {
        Err(ParseError::Invalid)
    }
}

/// The nested SID/Label as written: type 1, the length, the value.
pub open spec fn sid_label_bytes(sid: SidLabel) -> Seq<u8> {
    seq![1u8, sid.spec_bytes().len() as u8] + sid.spec_bytes()
}

pub fn parse_sid_label(input: &[u8]) -> (r: Result<SidLabel, ParseError>)
    ensures
        r == spec_sid_label(input@),
{
    if input.len() < 2 {
        return Err(ParseError::Incomplete);
    }
    if input[1] == 3 {
        if input.len() < 5 {
            return Err(ParseError::Incomplete);
        }
        Ok(SidLabelValue::Label(read_u24(input, 2)))
    } else if input[1] == 4 {
        if input.len() < 6 {
            return Err(ParseError::Incomplete);
        }
        Ok(SidLabelValue::Index(read_u32(input, 2)))
    } else {
        Err(ParseError::Invalid)
    }
}

fn emit_sid_label(buf: &mut BytesMut, sid: &SidLabel)
    requires
        buf_bytes(*old(buf)).len() + sid_label_bytes(*sid).len() <= isize::MAX,
    ensures
        buf_bytes(*final(buf)) == buf_bytes(*old(buf)) + sid_label_bytes(*sid),
{
    put_u8(buf, 1);
    put_u8(buf, sid.len());
    sid.emit(buf);
    assert(buf_bytes(*buf) =~= buf_bytes(*old(buf)) + sid_label_bytes(*sid));
}

proof fn lemma_sid_label_round_trip(sid: SidLabel, rest: Seq<u8>)
    requires
        sid.spec_wf(),
    ensures
        spec_sid_label(sid_label_bytes(sid) + rest) == Ok::<SidLabel, ParseError>(sid),
{
    let s = sid_label_bytes(sid) + rest;
    lemma_sid_round_trip(sid);
    match sid {
        SidLabelValue::Label(x) => {
            assert(s.subrange(2, 5) =~= u24_bytes(x));
            lemma_be24(x, s, 2);
        },
        SidLabelValue::Index(x) => {
            assert(s.subrange(2, 6) =~= u32_bytes(x));
            lemma_be32(x, s, 2);
        },
    }
}

/// Segment-routing capability: flags, a 24-bit range and the first SID/Label.
#[derive(Debug, Clone, Copy, PartialEq, Eq)]
pub struct IsisSubSegmentRoutingCap {
    pub flags: u8,
    pub range: u32,
    pub sid: SidLabel,
}

/// Segment-routing algorithms: one identifier byte each.
#[derive(Debug, Clone, PartialEq, Eq)]
pub struct IsisSubSegmentRoutingAlgo {
    pub algo: Vec<u8>,
}

/// Segment-routing local block: flags, a 24-bit range and the first SID/Label.
#[derive(Debug, Clone, Copy, PartialEq, Eq)]
pub struct IsisSubSegmentRoutingLB {
    pub flags: u8,
    pub range: u32,
    pub sid: SidLabel,
}

/// Node maximum SID depth.
#[derive(Debug, Clone, Copy, PartialEq, Eq)]
pub struct IsisSubNodeMaxSidDepth {
    pub flags: u8,
    pub depth: u8,
}

#[derive(Debug, Clone, PartialEq, Eq)]
pub enum IsisSubTlv {
    SegmentRoutingCap(IsisSubSegmentRoutingCap),
    SegmentRoutingAlgo(IsisSubSegmentRoutingAlgo),
    SegmentRoutingLB(IsisSubSegmentRoutingLB),
    NodeMaxSidDepth(IsisSubNodeMaxSidDepth),
    Unknown(IsisSubTlvUnknown),
}

pub enum CapSubModel {
    SegmentRoutingCap(IsisSubSegmentRoutingCap),
    SegmentRoutingAlgo(Seq<u8>),
    SegmentRoutingLB(IsisSubSegmentRoutingLB),
    NodeMaxSidDepth(IsisSubNodeMaxSidDepth),
    Unknown(UnknownModel),
}

impl View for IsisSubTlv {
    type V = CapSubModel;

    open spec fn view(&self) -> CapSubModel {
        match self {
            IsisSubTlv::SegmentRoutingCap(v) => CapSubModel::SegmentRoutingCap(*v),
            IsisSubTlv::SegmentRoutingAlgo(v) => CapSubModel::SegmentRoutingAlgo(v.algo@),
            IsisSubTlv::SegmentRoutingLB(v) => CapSubModel::SegmentRoutingLB(*v),
            IsisSubTlv::NodeMaxSidDepth(v) => CapSubModel::NodeMaxSidDepth(*v),
            IsisSubTlv::Unknown(v) => CapSubModel::Unknown(v@),
        }
    }
}

pub open spec fn cap_sub_code(m: CapSubModel) -> u8 {
    match m {
        CapSubModel::SegmentRoutingCap(_) => 2,
        CapSubModel::SegmentRoutingAlgo(_) => 19,
        CapSubModel::SegmentRoutingLB(_) => 22,
        CapSubModel::NodeMaxSidDepth(_) => 23,
        CapSubModel::Unknown(u) => u.code,
    }
}

pub open spec fn cap_sub_value(m: CapSubModel) -> Seq<u8> {
    match m {
        CapSubModel::SegmentRoutingCap(v) => seq![v.flags] + u24_bytes(v.range) + sid_label_bytes(
            v.sid,
        ),
        CapSubModel::SegmentRoutingAlgo(a) => a,
        CapSubModel::SegmentRoutingLB(v) => seq![v.flags] + u24_bytes(v.range) + sid_label_bytes(
            v.sid,
        ),
        CapSubModel::NodeMaxSidDepth(v) => seq![v.flags, v.depth],
        CapSubModel::Unknown(u) => u.data,
    }
}

pub open spec fn cap_sub_wf(m: CapSubModel) -> bool {
    match m {
        CapSubModel::SegmentRoutingCap(v) => v.range < 0x1000000 && v.sid.spec_wf(),
        CapSubModel::SegmentRoutingAlgo(a) => a.len() <= 255,
        CapSubModel::SegmentRoutingLB(v) => v.range < 0x1000000 && v.sid.spec_wf(),
        CapSubModel::NodeMaxSidDepth(_) => true,
        CapSubModel::Unknown(u) => unknown_wf(u) && IsisCapCode::spec_from_u8(u.code) is Unknown,
    }
}

/// A capability sub-TLV that can be written out: its value fits a length byte.
pub open spec fn cap_sub_fits(m: CapSubModel) -> bool {
    match m {
        CapSubModel::SegmentRoutingAlgo(a) => a.len() <= 255,
        CapSubModel::Unknown(u) => u.data.len() <= 255,
        _ => true,
    }
}

/// Decodes the value bytes `v` of a capability sub-TLV with code `code`.
pub open spec fn spec_decode_cap_sub(code: u8, v: Seq<u8>) -> Result<CapSubModel, ParseError> {
    match IsisCapCode::spec_from_u8(code) {
        IsisCapCode::SegmentRoutingCap => if v.len() < 4 {
            Err(ParseError::Incomplete)
        } else {
            match spec_sid_label(v.subrange(4, v.len() as int)) {
                Ok(sid) => Ok(
                    CapSubModel::SegmentRoutingCap(
                        IsisSubSegmentRoutingCap { flags: v[0], range: be24(v, 1), sid },
                    ),
                ),
                Err(e) => Err(e),
            }
        },
        IsisCapCode::SegmentRoutingAlgo => Ok(CapSubModel::SegmentRoutingAlgo(v)),
        IsisCapCode::SegmentRoutingLb => if v.len() < 4 {
            Err(ParseError::Incomplete)
        } else {
            match spec_sid_label(v.subrange(4, v.len() as int)) {
                Ok(sid) => Ok(
                    CapSubModel::SegmentRoutingLB(
                        IsisSubSegmentRoutingLB { flags: v[0], range: be24(v, 1), sid },
                    ),
                ),
                Err(e) => Err(e),
            }
        },
        IsisCapCode::NodeMaxSidDepth => if v.len() < 2 {
            Err(ParseError::Incomplete)
        } else {
            Ok(CapSubModel::NodeMaxSidDepth(IsisSubNodeMaxSidDepth { flags: v[0], depth: v[1] }))
        },
        IsisCapCode::Unknown(_) => Ok(
            CapSubModel::Unknown(UnknownModel { code, len: v.len() as u8, data: v }),
        ),
    }
}

#[verifier::spinoff_prover]
#[verifier::rlimit(60)]
pub proof fn lemma_decode_cap_sub(m: CapSubModel)
    requires
        cap_sub_wf(m),
    ensures
        spec_decode_cap_sub(cap_sub_code(m), cap_sub_value(m)) == Ok::<CapSubModel, ParseError>(m),
        cap_sub_value(m).len() <= 255,
{
    let v = cap_sub_value(m);
    match m {
        CapSubModel::SegmentRoutingCap(x) => {
            lemma_sid_round_trip(x.sid);
            assert(v.subrange(1, 4) =~= u24_bytes(x.range));
            lemma_be24(x.range, v, 1);
            assert(v.subrange(4, v.len() as int) =~= sid_label_bytes(x.sid) + Seq::<u8>::empty());
            lemma_sid_label_round_trip(x.sid, Seq::empty());
        },
        CapSubModel::SegmentRoutingLB(x) => {
            lemma_sid_round_trip(x.sid);
            assert(v.subrange(1, 4) =~= u24_bytes(x.range));
            lemma_be24(x.range, v, 1);
            assert(v.subrange(4, v.len() as int) =~= sid_label_bytes(x.sid) + Seq::<u8>::empty());
            lemma_sid_label_round_trip(x.sid, Seq::empty());
        },
        _ => {},
    }
}

impl IsisSubTlv {
    pub open spec fn spec_fits(&self) -> bool {
        cap_sub_fits(self@)
    }

    /// Decodes the value bytes `v` of a sub-TLV with code `code`.
    #[verifier::spinoff_prover]
    #[verifier::rlimit(60)]
    pub fn decode_value(code: u8, v: &[u8]) -> (r: Result<IsisSubTlv, ParseError>)
        requires
            v@.len() <= 255,
        ensures
            match r {
                Ok(x) => spec_decode_cap_sub(code, v@) == Ok::<CapSubModel, ParseError>(x@),
                Err(e) => spec_decode_cap_sub(code, v@) == Err::<CapSubModel, ParseError>(e),
            },
    {
        match IsisCapCode::from_u8(code) {
            IsisCapCode::SegmentRoutingCap => {
                if v.len() < 4 {
                    return Err(ParseError::Incomplete);
                }
                match parse_sid_label(vstd::slice::slice_subrange(v, 4, v.len())) {
                    Ok(sid) => Ok(
                        IsisSubTlv::SegmentRoutingCap(
                            IsisSubSegmentRoutingCap { flags: v[0], range: read_u24(v, 1), sid },
                        ),
                    ),
                    Err(e) => Err(e),
                }
            },
            IsisCapCode::SegmentRoutingAlgo => Ok(
                IsisSubTlv::SegmentRoutingAlgo(
                    IsisSubSegmentRoutingAlgo { algo: vstd::slice::slice_to_vec(v) },
                ),
            ),
            IsisCapCode::SegmentRoutingLb => {
                if v.len() < 4 {
                    return Err(ParseError::Incomplete);
                }
                match parse_sid_label(vstd::slice::slice_subrange(v, 4, v.len())) {
                    Ok(sid) => Ok(
                        IsisSubTlv::SegmentRoutingLB(
                            IsisSubSegmentRoutingLB { flags: v[0], range: read_u24(v, 1), sid },
                        ),
                    ),
                    Err(e) => Err(e),
                }
            },
            IsisCapCode::NodeMaxSidDepth => {
                if v.len() < 2 {
                    return Err(ParseError::Incomplete);
                }
                Ok(IsisSubTlv::NodeMaxSidDepth(IsisSubNodeMaxSidDepth { flags: v[0], depth: v[1] }))
            },
            IsisCapCode::Unknown(_) => Ok(IsisSubTlv::Unknown(IsisSubTlvUnknown::from_value(code, v))),
        }
    }

    /// Reads one sub-TLV from the front of `input`; returns it and the bytes it took.
    pub fn parse_subs(input: &[u8]) -> (r: Result<(IsisSubTlv, usize), ParseError>)
        ensures
            match r {
                Ok((x, n)) => Self::spec_parse(input@) == Ok::<(CapSubModel, nat), ParseError>(
                    (x@, n as nat),
                ) && 0 < n <= input@.len(),
                Err(e) => Self::spec_parse(input@) == Err::<(CapSubModel, nat), ParseError>(e),
            },
    {
        match split_tlv(input) {
            Err(e) => Err(e),
            Ok((code, v, n)) => match Self::decode_value(code, v) {
                Ok(x) => Ok((x, n)),
                Err(e) => Err(e),
            },
        }
    }

    pub fn code(&self) -> (r: u8)
        ensures
            r == cap_sub_code(self@),
    {
        match self {
            IsisSubTlv::SegmentRoutingCap(_) => 2,
            IsisSubTlv::SegmentRoutingAlgo(_) => 19,
            IsisSubTlv::SegmentRoutingLB(_) => 22,
            IsisSubTlv::NodeMaxSidDepth(_) => 23,
            IsisSubTlv::Unknown(v) => v.code,
        }
    }

    /// The length of the value, without the code and length bytes.
    pub fn len(&self) -> (r: u8)
        requires
            self.spec_fits(),
        ensures
            r as nat == cap_sub_value(self@).len(),
    {
        match self {
            IsisSubTlv::SegmentRoutingCap(v) => 6 + v.sid.len(),
            IsisSubTlv::SegmentRoutingAlgo(v) => v.algo.len() as u8,
            IsisSubTlv::SegmentRoutingLB(v) => 6 + v.sid.len(),
            IsisSubTlv::NodeMaxSidDepth(_) => 2,
            IsisSubTlv::Unknown(v) => v.data.len() as u8,
        }
    }

    /// Writes the code, the length and the value.
    #[verifier::spinoff_prover]
    #[verifier::rlimit(60)]
    pub fn emit(&self, buf: &mut BytesMut)
        requires
            self.spec_fits(),
            buf_bytes(*old(buf)).len() + tlv_bytes(cap_sub_code(self@), cap_sub_value(self@)).len() <= isize::MAX,
        ensures
            buf_bytes(*final(buf)) == buf_bytes(*old(buf)) + tlv_bytes(
                cap_sub_code(self@),
                cap_sub_value(self@),
            ),
    {
        put_u8(buf, self.code());
        put_u8(buf, self.len());
        match self {
            IsisSubTlv::SegmentRoutingCap(v) => {
                put_u8(buf, v.flags);
                put_u24(buf, v.range);
                emit_sid_label(buf, &v.sid);
            },
            IsisSubTlv::SegmentRoutingAlgo(v) => put_slice(buf, v.algo.as_slice()),
            IsisSubTlv::SegmentRoutingLB(v) => {
                put_u8(buf, v.flags);
                put_u24(buf, v.range);
                emit_sid_label(buf, &v.sid);
            },
            IsisSubTlv::NodeMaxSidDepth(v) => {
                put_u8(buf, v.flags);
                put_u8(buf, v.depth);
            },
            IsisSubTlv::Unknown(v) => v.emit(buf),
        }
        assert(buf_bytes(*buf) =~= buf_bytes(*old(buf)) + tlv_bytes(
            cap_sub_code(self@),
            cap_sub_value(self@),
        ));
    }
}

impl Record for IsisSubTlv {
    open spec fn spec_parse(s: Seq<u8>) -> Result<(CapSubModel, nat), ParseError> {
        match spec_split_tlv(s) {
            Err(e) => Err(e),
            Ok((code, v, n)) => match spec_decode_cap_sub(code, v) {
                Ok(m) => Ok((m, n)),
                Err(e) => Err(e),
            },
        }
    }

    open spec fn spec_bytes(m: CapSubModel) -> Seq<u8> {
        tlv_bytes(cap_sub_code(m), cap_sub_value(m))
    }

    open spec fn spec_wf(m: CapSubModel) -> bool {
        cap_sub_wf(m)
    }

    open spec fn spec_fits(m: CapSubModel) -> bool {
        cap_sub_fits(m)
    }

    proof fn lemma_wf_fits(m: CapSubModel) {
    }

    proof fn lemma_round_trip(m: CapSubModel, rest: Seq<u8>) {
        lemma_decode_cap_sub(m);
        lemma_split_tlv(cap_sub_code(m), cap_sub_value(m), rest);
    }

    fn parse(input: &[u8]) -> (r: Result<(Self, usize), ParseError>) {
        Self::parse_subs(input)
    }

    fn emit(&self, buf: &mut BytesMut) {
        IsisSubTlv::emit(self, buf)
    }

    fn wire_len(&self) -> (r: usize) {
        self.len() as usize + 2
    }
}

/// Router capability: a router ID, a flags byte and capability sub-TLVs.
#[derive(Debug, Clone, PartialEq, Eq)]
pub struct IsisTlvRouterCap {
    pub router_id: [u8; 4],
    pub flags: u8,
    pub subs: Vec<IsisSubTlv>,
}

impl IsisTlvRouterCap {
    pub open spec fn spec_subs(&self) -> Seq<CapSubModel> {
        views(self.subs@)
    }

    pub open spec fn spec_fits(&self) -> bool {
        fits_many::<IsisSubTlv>(self.spec_subs()) && many_bytes::<IsisSubTlv>(self.spec_subs()).len()
            <= 250
    }

    /// Decodes the whole of `input`: router ID, flags, then back-to-back sub-TLVs.
    pub fn parse_be(input: &[u8]) -> (r: Result<IsisTlvRouterCap, ParseError>)
        ensures
            match r {
                Ok(x) => input@.len() >= 5 && x.router_id@ == input@.subrange(0, 4) && x.flags
                    == input@[4] && parse_many::<IsisSubTlv>(input@.subrange(5, input@.len() as int))
                    == Ok::<Seq<CapSubModel>, ParseError>(x.spec_subs()),
                Err(e) => if input@.len() < 5 {
                    e == ParseError::Incomplete
                } else {
                    parse_many::<IsisSubTlv>(input@.subrange(5, input@.len() as int)) == Err::<
                        Seq<CapSubModel>,
                        ParseError,
                    >(e)
                },
            },
    {
        if input.len() < 5 {
            return Err(ParseError::Incomplete);
        }
        let router_id = ipv4_at(input, 0);
        match many0::<IsisSubTlv>(vstd::slice::slice_subrange(input, 5, input.len())) {
            Ok(subs) => Ok(IsisTlvRouterCap { router_id, flags: input[4], subs }),
            Err(e) => Err(e),
        }
    }

    /// The bytes of the sub-TLVs.
    pub fn sub_len(&self) -> (r: u8)
        requires
            self.spec_fits(),
        ensures
            r as nat == many_bytes::<IsisSubTlv>(self.spec_subs()).len(),
    {
        many_len::<IsisSubTlv>(&self.subs) as u8
    }

    pub fn typ(&self) -> (r: u8)
        ensures
            r == 242,
    {
        242
    }

    /// The length of the value.
    pub fn len(&self) -> (r: u8)
        requires
            self.spec_fits(),
        ensures
            r as nat == 5 + many_bytes::<IsisSubTlv>(self.spec_subs()).len(),
    {
        5 + self.sub_len()
    }

    /// Writes the value: router ID, flags, then every sub-TLV in order.
    pub fn emit(&self, buf: &mut BytesMut)
        requires
            self.spec_fits(),
            buf_bytes(*old(buf)).len() + (self.router_id@ + seq![self.flags] + many_bytes::<IsisSubTlv>(self.spec_subs())).len() <= isize::MAX,
        ensures
            buf_bytes(*final(buf)) == buf_bytes(*old(buf)) + self.router_id@ + seq![self.flags]
                + many_bytes::<IsisSubTlv>(self.spec_subs()),
    {
        put_slice(buf, vstd::array::array_as_slice(&self.router_id));
        put_u8(buf, self.flags);
        emit_many::<IsisSubTlv>(&self.subs, buf);
        assert(buf_bytes(*buf) =~= buf_bytes(*old(buf)) + self.router_id@ + seq![self.flags]
            + many_bytes::<IsisSubTlv>(self.spec_subs()));
    }
}

} // verus!
