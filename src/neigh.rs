//! Extended IS reachability: neighbor entries and their sub-TLV namespace.

use vstd::prelude::*;
use bytes::BytesMut;
use crate::buf::{buf_bytes, put_slice, put_u8};
use crate::codes::IsisNeighCode;
use crate::ident::{ipv4_at, ipv6_at, neighbor_id_at, sys_id_at, IsisNeighborId, IsisSysId};
use crate::record::{
    lemma_many_round_trip, many_bytes, many_len, parse_many, many0, emit_many, views,
    wf_many, fits_many, lemma_wf_fits_many, Record,
};
use crate::sid::{lemma_sid_round_trip, spec_decode_sid, SidLabelValue};
use crate::tlv_frame::{lemma_split_tlv, spec_split_tlv, split_tlv, tlv_bytes};
use crate::unknown::{unknown_wf, IsisSubTlvUnknown, UnknownModel};
use crate::wire::{be24, lemma_be24, put_u24, read_u24, u24_bytes, ParseError};

verus! {

#[derive(Debug, Clone, Copy, PartialEq, Eq)]
pub struct IsisSubIpv4IfAddr {
    pub addr: [u8; 4],
}

#[derive(Debug, Clone, Copy, PartialEq, Eq)]
pub struct IsisSubIpv4NeighAddr {
    pub addr: [u8; 4],
}

#[derive(Debug, Clone, Copy, PartialEq, Eq)]
pub struct IsisSubIpv6IfAddr {
    pub addr: [u8; 16],
}

#[derive(Debug, Clone, Copy, PartialEq, Eq)]
pub struct IsisSubIpv6NeighAddr {
    pub addr: [u8; 16],
}

/// The flags byte of an adjacency SID; bits 0 and 1 are reserved.
#[derive(Debug, Clone, Copy, PartialEq, Eq, Default)]
pub struct AdjSidFlags {
    pub bits: u8,
}

impl AdjSidFlags {
    pub fn p_flag(&self) -> (r: bool)
        ensures
            r == ((self.bits / 4) % 2 == 1),
    {
        (self.bits / 4) % 2 == 1
    }

    pub fn s_flag(&self) -> (r: bool)
        ensures
            r == ((self.bits / 8) % 2 == 1),
    {
        (self.bits / 8) % 2 == 1
    }

    pub fn l_flag(&self) -> (r: bool)
        ensures
            r == ((self.bits / 16) % 2 == 1),
    {
        (self.bits / 16) % 2 == 1
    }

    pub fn v_flag(&self) -> (r: bool)
        ensures
            r == ((self.bits / 32) % 2 == 1),
    {
        (self.bits / 32) % 2 == 1
    }

    pub fn b_flag(&self) -> (r: bool)
        ensures
            r == ((self.bits / 64) % 2 == 1),
    {
        (self.bits / 64) % 2 == 1
    }

    pub fn f_flag(&self) -> (r: bool)
        ensures
            r == (self.bits >= 128),
    {
        self.bits >= 128
    }
}

#[derive(Debug, Clone, Copy, PartialEq, Eq)]
pub struct IsisSubAdjSid {
    pub flags: AdjSidFlags,
    pub weight: u8,
    pub sid: SidLabelValue,
}

#[derive(Debug, Clone, Copy, PartialEq, Eq)]
pub struct IsisSubLanAdjSid {
    pub flags: AdjSidFlags,
    pub weight: u8,
    pub system_id: IsisSysId,
    pub sid: SidLabelValue,
}

#[derive(Debug, Clone, PartialEq, Eq)]
pub enum IsisSubTlv {
    Ipv4IfAddr(IsisSubIpv4IfAddr),
    Ipv4NeighAddr(IsisSubIpv4NeighAddr),
    Ipv6IfAddr(IsisSubIpv6IfAddr),
    Ipv6NeighAddr(IsisSubIpv6NeighAddr),
    AdjSid(IsisSubAdjSid),
    LanAdjSid(IsisSubLanAdjSid),
    Unknown(IsisSubTlvUnknown),
}

/// A neighbor sub-TLV as a value: addresses and IDs as byte strings.
pub enum NeighSubModel {
    Ipv4IfAddr(Seq<u8>),
    Ipv4NeighAddr(Seq<u8>),
    Ipv6IfAddr(Seq<u8>),
    Ipv6NeighAddr(Seq<u8>),
    AdjSid(IsisSubAdjSid),
    LanAdjSid(AdjSidFlags, u8, Seq<u8>, SidLabelValue),
    Unknown(UnknownModel),
}

impl View for IsisSubTlv {
    type V = NeighSubModel;

    open spec fn view(&self) -> NeighSubModel {
        match self {
            IsisSubTlv::Ipv4IfAddr(v) => NeighSubModel::Ipv4IfAddr(v.addr@),
            IsisSubTlv::Ipv4NeighAddr(v) => NeighSubModel::Ipv4NeighAddr(v.addr@),
            IsisSubTlv::Ipv6IfAddr(v) => NeighSubModel::Ipv6IfAddr(v.addr@),
            IsisSubTlv::Ipv6NeighAddr(v) => NeighSubModel::Ipv6NeighAddr(v.addr@),
            IsisSubTlv::AdjSid(v) => NeighSubModel::AdjSid(*v),
            IsisSubTlv::LanAdjSid(v) => NeighSubModel::LanAdjSid(
                v.flags,
                v.weight,
                v.system_id.id@,
                v.sid,
            ),
            IsisSubTlv::Unknown(v) => NeighSubModel::Unknown(v@),
        }
    }
}

pub open spec fn neigh_code(m: NeighSubModel) -> u8 {
    match m {
        NeighSubModel::Ipv4IfAddr(_) => 6,
        NeighSubModel::Ipv4NeighAddr(_) => 8,
        NeighSubModel::Ipv6IfAddr(_) => 12,
        NeighSubModel::Ipv6NeighAddr(_) => 13,
        NeighSubModel::AdjSid(_) => 31,
        NeighSubModel::LanAdjSid(..) => 32,
        NeighSubModel::Unknown(u) => u.code,
    }
}

pub open spec fn neigh_value(m: NeighSubModel) -> Seq<u8> {
    match m {
        NeighSubModel::Ipv4IfAddr(a) => a,
        NeighSubModel::Ipv4NeighAddr(a) => a,
        NeighSubModel::Ipv6IfAddr(a) => a,
        NeighSubModel::Ipv6NeighAddr(a) => a,
        NeighSubModel::AdjSid(v) => seq![v.flags.bits, v.weight] + v.sid.spec_bytes(),
        NeighSubModel::LanAdjSid(f, w, sys, sid) => seq![f.bits, w] + sys + sid.spec_bytes(),
        NeighSubModel::Unknown(u) => u.data,
    }
}

pub open spec fn neigh_wf(m: NeighSubModel) -> bool {
    match m {
        NeighSubModel::Ipv4IfAddr(a) => a.len() == 4,
        NeighSubModel::Ipv4NeighAddr(a) => a.len() == 4,
        NeighSubModel::Ipv6IfAddr(a) => a.len() == 16,
        NeighSubModel::Ipv6NeighAddr(a) => a.len() == 16,
        NeighSubModel::AdjSid(v) => v.sid.spec_wf(),
        NeighSubModel::LanAdjSid(_, _, sys, sid) => sys.len() == 6 && sid.spec_wf(),
        NeighSubModel::Unknown(u) => unknown_wf(u) && IsisNeighCode::spec_from_u8(
            u.code,
        ) is Unknown,
    }
}

/// A neighbor sub-TLV that can be written out: its value fits a length byte.
pub open spec fn neigh_fits(m: NeighSubModel) -> bool {
    match m {
        NeighSubModel::Ipv4IfAddr(a) => a.len() == 4,
        NeighSubModel::Ipv4NeighAddr(a) => a.len() == 4,
        NeighSubModel::Ipv6IfAddr(a) => a.len() == 16,
        NeighSubModel::Ipv6NeighAddr(a) => a.len() == 16,
        NeighSubModel::AdjSid(_) => true,
        NeighSubModel::LanAdjSid(_, _, sys, _) => sys.len() == 6,
        NeighSubModel::Unknown(u) => u.data.len() <= 255,
    }
}

proof fn lemma_neigh_value_len(m: NeighSubModel)
    requires
        neigh_fits(m),
    ensures
        neigh_value(m).len() <= 255,
{
}

/// Decodes the value bytes `v` of a neighbor sub-TLV with code `code`.
pub open spec fn spec_decode_neigh(code: u8, v: Seq<u8>) -> Result<NeighSubModel, ParseError> {
    match IsisNeighCode::spec_from_u8(code) {
        IsisNeighCode::Ipv4IfAddr => if v.len() < 4 {
            Err(ParseError::Incomplete)
        } else {
            Ok(NeighSubModel::Ipv4IfAddr(v.subrange(0, 4)))
        },
        IsisNeighCode::Ipv4NeighAddr => if v.len() < 4 {
            Err(ParseError::Incomplete)
        } else {
            Ok(NeighSubModel::Ipv4NeighAddr(v.subrange(0, 4)))
        },
        IsisNeighCode::Ipv6IfAddr => if v.len() < 16 {
            Err(ParseError::Incomplete)
        } else {
            Ok(NeighSubModel::Ipv6IfAddr(v.subrange(0, 16)))
        },
        IsisNeighCode::Ipv6NeighAddr => if v.len() < 16 {
            Err(ParseError::Incomplete)
        } else {
            Ok(NeighSubModel::Ipv6NeighAddr(v.subrange(0, 16)))
        },
        IsisNeighCode::AdjSid => if v.len() < 2 {
            Err(ParseError::Incomplete)
        } else {
            match spec_decode_sid(v.subrange(2, v.len() as int)) {
                Ok(sid) => Ok(
                    NeighSubModel::AdjSid(
                        IsisSubAdjSid { flags: AdjSidFlags { bits: v[0] }, weight: v[1], sid },
                    ),
                ),
                Err(e) => Err(e),
            }
        },
        IsisNeighCode::LanAdjSid => if v.len() < 8 {
            Err(ParseError::Incomplete)
        } else {
            match spec_decode_sid(v.subrange(8, v.len() as int)) {
                Ok(sid) => Ok(
                    NeighSubModel::LanAdjSid(AdjSidFlags { bits: v[0] }, v[1], v.subrange(2, 8), sid),
                ),
                Err(e) => Err(e),
            }
        },
        IsisNeighCode::Unknown(_) => Ok(
            NeighSubModel::Unknown(UnknownModel { code, len: v.len() as u8, data: v }),
        ),
    }
}

#[verifier::spinoff_prover]
#[verifier::rlimit(60)]
pub proof fn lemma_decode_neigh(m: NeighSubModel)
    requires
        neigh_wf(m),
    ensures
        spec_decode_neigh(neigh_code(m), neigh_value(m)) == Ok::<NeighSubModel, ParseError>(m),
        neigh_value(m).len() <= 255,
{
    let v = neigh_value(m);
    match m {
        NeighSubModel::Ipv4IfAddr(a) => {
            assert(v.subrange(0, 4) =~= a);
        },
        NeighSubModel::Ipv4NeighAddr(a) => {
            assert(v.subrange(0, 4) =~= a);
        },
        NeighSubModel::Ipv6IfAddr(a) => {
            assert(v.subrange(0, 16) =~= a);
        },
        NeighSubModel::Ipv6NeighAddr(a) => {
            assert(v.subrange(0, 16) =~= a);
        },
        NeighSubModel::AdjSid(x) => {
            lemma_sid_round_trip(x.sid);
            assert(v.subrange(2, v.len() as int) =~= x.sid.spec_bytes());
        },
        NeighSubModel::LanAdjSid(f, w, sys, sid) => {
            lemma_sid_round_trip(sid);
            assert(v.subrange(8, v.len() as int) =~= sid.spec_bytes());
            assert(v.subrange(2, 8) =~= sys);
        },
        NeighSubModel::Unknown(u) => {},
    }
}

impl IsisSubTlv {
    pub open spec fn spec_fits(&self) -> bool {
        neigh_fits(self@)
    }

    /// Decodes the value bytes `v` of a sub-TLV with code `code`.
    #[verifier::spinoff_prover]
    #[verifier::rlimit(60)]
    pub fn decode_value(code: u8, v: &[u8]) -> (r: Result<IsisSubTlv, ParseError>)
        requires
            v@.len() <= 255,
        ensures
            match r {
                Ok(x) => spec_decode_neigh(code, v@) == Ok::<NeighSubModel, ParseError>(x@),
                Err(e) => spec_decode_neigh(code, v@) == Err::<NeighSubModel, ParseError>(e),
            },
    {
        match IsisNeighCode::from_u8(code) {
            IsisNeighCode::Ipv4IfAddr => {
                if v.len() < 4 {
                    return Err(ParseError::Incomplete);
                }
                Ok(IsisSubTlv::Ipv4IfAddr(IsisSubIpv4IfAddr { addr: ipv4_at(v, 0) }))
            },
            IsisNeighCode::Ipv4NeighAddr => {
                if v.len() < 4 {
                    return Err(ParseError::Incomplete);
                }
                Ok(IsisSubTlv::Ipv4NeighAddr(IsisSubIpv4NeighAddr { addr: ipv4_at(v, 0) }))
            },
            IsisNeighCode::Ipv6IfAddr => {
                if v.len() < 16 {
                    return Err(ParseError::Incomplete);
                }
                Ok(IsisSubTlv::Ipv6IfAddr(IsisSubIpv6IfAddr { addr: ipv6_at(v, 0) }))
            },
            IsisNeighCode::Ipv6NeighAddr => {
                if v.len() < 16 {
                    return Err(ParseError::Incomplete);
                }
                Ok(IsisSubTlv::Ipv6NeighAddr(IsisSubIpv6NeighAddr { addr: ipv6_at(v, 0) }))
            },
            IsisNeighCode::AdjSid => {
                if v.len() < 2 {
                    return Err(ParseError::Incomplete);
                }
                let sid_bytes = vstd::slice::slice_subrange(v, 2, v.len());
                match SidLabelValue::parse_be(sid_bytes) {
                    Ok(sid) => Ok(
                        IsisSubTlv::AdjSid(
                            IsisSubAdjSid { flags: AdjSidFlags { bits: v[0] }, weight: v[1], sid },
                        ),
                    ),
                    Err(e) => Err(e),
                }
            },
            IsisNeighCode::LanAdjSid => {
                if v.len() < 8 {
                    return Err(ParseError::Incomplete);
                }
                let sid_bytes = vstd::slice::slice_subrange(v, 8, v.len());
                match SidLabelValue::parse_be(sid_bytes) {
                    Ok(sid) => Ok(
                        IsisSubTlv::LanAdjSid(
                            IsisSubLanAdjSid {
                                flags: AdjSidFlags { bits: v[0] },
                                weight: v[1],
                                system_id: sys_id_at(v, 2),
                                sid,
                            },
                        ),
                    ),
                    Err(e) => Err(e),
                }
            },
            IsisNeighCode::Unknown(_) => {
                Ok(IsisSubTlv::Unknown(IsisSubTlvUnknown::from_value(code, v)))
            },
        }
    }

    /// Reads one sub-TLV from the front of `input`; returns it and the bytes it took.
    pub fn parse_subs(input: &[u8]) -> (r: Result<(IsisSubTlv, usize), ParseError>)
        ensures
            match r {
                Ok((x, n)) => Self::spec_parse(input@) == Ok::<(NeighSubModel, nat), ParseError>(
                    (x@, n as nat),
                ) && 0 < n <= input@.len(),
                Err(e) => Self::spec_parse(input@) == Err::<(NeighSubModel, nat), ParseError>(e),
            },
    {
        match split_tlv(input) {
            Err(e) => Err(e),
            Ok((code, v, n)) => match Self::decode_value(code, v) {
                Ok(x) => Ok((x, n)),
                Err(e) => Err(e),
            },
        }
    }

    pub fn code(&self) -> (r: u8)
        ensures
            r == neigh_code(self@),
    {
        match self {
            IsisSubTlv::Ipv4IfAddr(_) => 6,
            IsisSubTlv::Ipv4NeighAddr(_) => 8,
            IsisSubTlv::Ipv6IfAddr(_) => 12,
            IsisSubTlv::Ipv6NeighAddr(_) => 13,
            IsisSubTlv::AdjSid(_) => 31,
            IsisSubTlv::LanAdjSid(_) => 32,
            IsisSubTlv::Unknown(v) => v.code,
        }
    }

    /// The length of the value, without the code and length bytes.
    pub fn len(&self) -> (r: u8)
        requires
            self.spec_fits(),
        ensures
            r as nat == neigh_value(self@).len(),
    {
        match self {
            IsisSubTlv::Ipv4IfAddr(_) => 4,
            IsisSubTlv::Ipv4NeighAddr(_) => 4,
            IsisSubTlv::Ipv6IfAddr(_) => 16,
            IsisSubTlv::Ipv6NeighAddr(_) => 16,
            IsisSubTlv::AdjSid(v) => 2 + v.sid.len(),
            IsisSubTlv::LanAdjSid(v) => 8 + v.sid.len(),
            IsisSubTlv::Unknown(v) => v.data.len() as u8,
        }
    }

    pub fn is_empty(&self) -> (r: bool)
        requires
            self.spec_fits(),
        ensures
            r == (neigh_value(self@).len() == 0),
    {
        self.len() == 0
    }

    /// Writes the code, the length and the value.
    #[verifier::spinoff_prover]
    #[verifier::rlimit(60)]
    pub fn emit(&self, buf: &mut BytesMut)
        requires
            self.spec_fits(),
            buf_bytes(*old(buf)).len() + tlv_bytes(neigh_code(self@), neigh_value(self@)).len() <= isize::MAX,
        ensures
            buf_bytes(*final(buf)) == buf_bytes(*old(buf)) + tlv_bytes(
                neigh_code(self@),
                neigh_value(self@),
            ),
    {
        proof {
            lemma_neigh_value_len(self@);
        }
        put_u8(buf, self.code());
        put_u8(buf, self.len());
        match self {
            IsisSubTlv::Ipv4IfAddr(v) => put_slice(buf, vstd::array::array_as_slice(&v.addr)),
            IsisSubTlv::Ipv4NeighAddr(v) => put_slice(buf, vstd::array::array_as_slice(&v.addr)),
            IsisSubTlv::Ipv6IfAddr(v) => put_slice(buf, vstd::array::array_as_slice(&v.addr)),
            IsisSubTlv::Ipv6NeighAddr(v) => put_slice(buf, vstd::array::array_as_slice(&v.addr)),
            IsisSubTlv::AdjSid(v) => {
                put_u8(buf, v.flags.bits);
                put_u8(buf, v.weight);
                v.sid.emit(buf);
            },
            IsisSubTlv::LanAdjSid(v) => {
                put_u8(buf, v.flags.bits);
                put_u8(buf, v.weight);
                put_slice(buf, vstd::array::array_as_slice(&v.system_id.id));
                v.sid.emit(buf);
            },
            IsisSubTlv::Unknown(v) => v.emit(buf),
        }
        assert(buf_bytes(*buf) =~= buf_bytes(*old(buf)) + tlv_bytes(
            neigh_code(self@),
            neigh_value(self@),
        ));
    }
}

impl Record for IsisSubTlv {
    open spec fn spec_parse(s: Seq<u8>) -> Result<(NeighSubModel, nat), ParseError> {
        match spec_split_tlv(s) {
            Err(e) => Err(e),
            Ok((code, v, n)) => match spec_decode_neigh(code, v) {
                Ok(m) => Ok((m, n)),
                Err(e) => Err(e),
            },
        }
    }

    open spec fn spec_bytes(m: NeighSubModel) -> Seq<u8> {
        tlv_bytes(neigh_code(m), neigh_value(m))
    }

    open spec fn spec_wf(m: NeighSubModel) -> bool {
        neigh_wf(m)
    }

    open spec fn spec_fits(m: NeighSubModel) -> bool {
        neigh_fits(m)
    }

    proof fn lemma_wf_fits(m: NeighSubModel) {
    }

    proof fn lemma_round_trip(m: NeighSubModel, rest: Seq<u8>) {
        lemma_decode_neigh(m);
        lemma_split_tlv(neigh_code(m), neigh_value(m), rest);
    }

    fn parse(input: &[u8]) -> (r: Result<(Self, usize), ParseError>) {
        Self::parse_subs(input)
    }

    fn emit(&self, buf: &mut BytesMut) {
        IsisSubTlv::emit(self, buf)
    }

    fn wire_len(&self) -> (r: usize) {
        self.len() as usize + 2
    }
}

/// One neighbor of an extended IS reachability TLV, with its own sub-TLVs.
#[derive(Debug, Clone, PartialEq, Eq)]
pub struct IsisTlvExtIsReachEntry {
    pub neighbor_id: IsisNeighborId,
    /// A 24-bit metric.
    pub metric: u32,
    pub subs: Vec<IsisSubTlv>,
}

pub struct IsReachEntryModel {
    pub neighbor_id: Seq<u8>,
    pub metric: u32,
    pub subs: Seq<NeighSubModel>,
}

impl View for IsisTlvExtIsReachEntry {
    type V = IsReachEntryModel;

    open spec fn view(&self) -> IsReachEntryModel {
        IsReachEntryModel { neighbor_id: self.neighbor_id.id@, metric: self.metric, subs: views(self.subs@) }
    }
}

pub open spec fn is_entry_sub_bytes(m: IsReachEntryModel) -> Seq<u8> {
    many_bytes::<IsisSubTlv>(m.subs)
}

impl Record for IsisTlvExtIsReachEntry {
    /// Neighbor ID, 24-bit metric, sub-TLV block length, then the block itself.
    open spec fn spec_parse(s: Seq<u8>) -> Result<(IsReachEntryModel, nat), ParseError> {
        if s.len() < 11 {
            Err(ParseError::Incomplete)
        } else if s.len() - 11 < s[10] {
            Err(ParseError::Incomplete)
        } else {
            match parse_many::<IsisSubTlv>(s.subrange(11, 11 + s[10] as int)) {
                Ok(subs) => Ok(
                    (
                        IsReachEntryModel {
                            neighbor_id: s.subrange(0, 7),
                            metric: be24(s, 7),
                            subs,
                        },
                        (11 + s[10]) as nat,
                    ),
                ),
                Err(e) => Err(e),
            }
        }
    }

    open spec fn spec_bytes(m: IsReachEntryModel) -> Seq<u8> {
        m.neighbor_id + u24_bytes(m.metric) + seq![is_entry_sub_bytes(m).len() as u8]
            + is_entry_sub_bytes(m)
    }

    open spec fn spec_wf(m: IsReachEntryModel) -> bool {
        &&& m.neighbor_id.len() == 7
        &&& m.metric < 0x1000000
        &&& wf_many::<IsisSubTlv>(m.subs)
        &&& is_entry_sub_bytes(m).len() <= 255
    }

    open spec fn spec_fits(m: IsReachEntryModel) -> bool {
        &&& m.neighbor_id.len() == 7
        &&& fits_many::<IsisSubTlv>(m.subs)
        &&& is_entry_sub_bytes(m).len() <= 255
    }

    proof fn lemma_wf_fits(m: IsReachEntryModel) {
        lemma_wf_fits_many::<IsisSubTlv>(m.subs);
    }

    proof fn lemma_round_trip(m: IsReachEntryModel, rest: Seq<u8>) {
        let sb = is_entry_sub_bytes(m);
        let s = Self::spec_bytes(m) + rest;
        assert(s.subrange(0, 7) =~= m.neighbor_id);
        assert(s.subrange(7, 10) =~= u24_bytes(m.metric));
        lemma_be24(m.metric, s, 7);
        assert(s[10] == sb.len() as u8);
        assert(s.subrange(11, 11 + sb.len() as int) =~= sb);
        lemma_many_round_trip::<IsisSubTlv>(m.subs);
    }

    fn parse(input: &[u8]) -> (r: Result<(Self, usize), ParseError>) {
        IsisTlvExtIsReachEntry::parse_be(input)
    }

    fn emit(&self, buf: &mut BytesMut) {
        IsisTlvExtIsReachEntry::emit(self, buf)
    }

    fn wire_len(&self) -> (r: usize) {
        self.len() as usize
    }
}

impl IsisTlvExtIsReachEntry {
    pub open spec fn spec_fits(&self) -> bool {
        <IsisTlvExtIsReachEntry as Record>::spec_fits(self@)
    }

    /// Reads one entry from the front of `input`; returns it and the bytes it took.
    pub fn parse_be(input: &[u8]) -> (r: Result<(IsisTlvExtIsReachEntry, usize), ParseError>)
        ensures
            match r {
                Ok((x, n)) => <Self as Record>::spec_parse(input@) == Ok::<
                    (IsReachEntryModel, nat),
                    ParseError,
                >((x@, n as nat)) && 0 < n <= input@.len(),
                Err(e) => <Self as Record>::spec_parse(input@) == Err::<
                    (IsReachEntryModel, nat),
                    ParseError,
                >(e),
            },
    {
        if input.len() < 11 {
            return Err(ParseError::Incomplete);
        }
        let sublen = input[10] as usize;
        if input.len() - 11 < sublen {
            return Err(ParseError::Incomplete);
        }
        let block = vstd::slice::slice_subrange(input, 11, 11 + sublen);
        match many0::<IsisSubTlv>(block) {
            Ok(subs) => Ok(
                (
                    IsisTlvExtIsReachEntry {
                        neighbor_id: neighbor_id_at(input, 0),
                        metric: read_u24(input, 7),
                        subs,
                    },
                    11 + sublen,
                ),
            ),
            Err(e) => Err(e),
        }
    }

    /// The bytes of the sub-TLV block, without its length byte.
    pub fn sub_len(&self) -> (r: u8)
        requires
            self.spec_fits(),
        ensures
            r as nat == is_entry_sub_bytes(self@).len(),
    {
        many_len::<IsisSubTlv>(&self.subs) as u8
    }

    /// The bytes the whole entry takes.
    pub fn len(&self) -> (r: u16)
        requires
            self.spec_fits(),
        ensures
            r as nat == <Self as Record>::spec_bytes(self@).len(),
    {
        11 + self.sub_len() as u16
    }

    pub fn emit(&self, buf: &mut BytesMut)
        requires
            self.spec_fits(),
            buf_bytes(*old(buf)).len() + <Self as Record>::spec_bytes(self@).len() <= isize::MAX,
        ensures
            buf_bytes(*final(buf)) == buf_bytes(*old(buf)) + <Self as Record>::spec_bytes(self@),
    {
        put_slice(buf, vstd::array::array_as_slice(&self.neighbor_id.id));
        put_u24(buf, self.metric);
        put_u8(buf, self.sub_len());
        emit_many::<IsisSubTlv>(&self.subs, buf);
        assert(buf_bytes(*buf) =~= buf_bytes(*old(buf)) + <Self as Record>::spec_bytes(self@));
    }
}

/// Extended IS reachability: a list of neighbor entries.
#[derive(Debug, Clone, PartialEq, Eq, Default)]
pub struct IsisTlvExtIsReach {
    pub entries: Vec<IsisTlvExtIsReachEntry>,
}

impl IsisTlvExtIsReach {
    pub open spec fn spec_entries(&self) -> Seq<IsReachEntryModel> {
        views(self.entries@)
    }

    pub open spec fn spec_fits(&self) -> bool {
        fits_many::<IsisTlvExtIsReachEntry>(self.spec_entries())
            && many_bytes::<IsisTlvExtIsReachEntry>(self.spec_entries()).len() <= 255
    }

    /// Decodes the whole of `input` as back-to-back entries.
    pub fn parse_be(input: &[u8]) -> (r: Result<IsisTlvExtIsReach, ParseError>)
        ensures
            match r {
                Ok(x) => parse_many::<IsisTlvExtIsReachEntry>(input@) == Ok::<
                    Seq<IsReachEntryModel>,
                    ParseError,
                >(x.spec_entries()),
                Err(e) => parse_many::<IsisTlvExtIsReachEntry>(input@) == Err::<
                    Seq<IsReachEntryModel>,
                    ParseError,
                >(e),
            },
    {
        match many0::<IsisTlvExtIsReachEntry>(input) {
            Ok(entries) => Ok(IsisTlvExtIsReach { entries }),
            Err(e) => Err(e),
        }
    }

    pub fn typ(&self) -> (r: u8)
        ensures
            r == 22,
    {
        22
    }

    /// The length of the value: the sum of the entries' lengths.
    pub fn len(&self) -> (r: u8)
        requires
            self.spec_fits(),
        ensures
            r as nat == many_bytes::<IsisTlvExtIsReachEntry>(self.spec_entries()).len(),
    {
        many_len::<IsisTlvExtIsReachEntry>(&self.entries) as u8
    }

    /// Writes the value: every entry in order.
    pub fn emit(&self, buf: &mut BytesMut)
        requires
            self.spec_fits(),
            buf_bytes(*old(buf)).len() + many_bytes::<IsisTlvExtIsReachEntry>(self.spec_entries()).len() <= isize::MAX,
        ensures
            buf_bytes(*final(buf)) == buf_bytes(*old(buf)) + many_bytes::<IsisTlvExtIsReachEntry>(
                self.spec_entries(),
            ),
    {
        emit_many::<IsisTlvExtIsReachEntry>(&self.entries, buf)
    }
}

} // verus!
