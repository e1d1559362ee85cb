//! The top-level TLV engine: the known TLV kinds, their decoders and emitters,
//! and the unknown fallback that keeps a record verbatim.

use vstd::prelude::*;
use vstd::utf8::{decode_utf8, encode_utf8, valid_utf8};
use bytes::BytesMut;
use crate::buf::{buf_bytes, put_slice, put_u8};
use crate::cap::{CapSubModel, IsisTlvRouterCap};
use crate::codes::IsisTlvType;
use crate::ident::{ipv4_at, ipv6_at, lsp_id_at, IsisLspId};
use crate::neigh::{IsReachEntryModel, IsisTlvExtIsReach, IsisTlvExtIsReachEntry};
use crate::prefix::{
    Ipv4EntryModel, Ipv6EntryModel, IsisTlvExtIpReach, IsisTlvExtIpReachEntry, IsisTlvIpv6Reach,
    IsisTlvIpv6ReachEntry, IsisTlvMtIpReach, IsisTlvMtIpv6Reach, MultiTopologyId,
};
use crate::record::{
    emit_many, lemma_many_round_trip, many_bytes, many_len, parse_many,
    many0, views, wf_many, fits_many, lemma_wf_fits_many, Record,
};
use crate::tlv_frame::{lemma_split_tlv, spec_split_tlv, split_tlv, tlv_bytes};
use crate::unknown::{unknown_wf, UnknownModel};
use crate::wire::{
    be16, be32, lemma_be16, lemma_be32, put_u16, put_u32, read_u16, read_u32, u16_bytes,
    u32_bytes, ParseError,
};

verus! {

/// What decoding the bytes of a hostname yields where they are not valid UTF-8.
pub uninterp spec fn lossy_utf8(b: Seq<u8>) -> Seq<char>;

/// The characters of a hostname read from `b`: exact for valid UTF-8,
/// with replacement characters otherwise.
pub open spec fn hostname_of(b: Seq<u8>) -> Seq<char> {
    if valid_utf8(b) {
        decode_utf8(b)
    } else {
        lossy_utf8(b)
    }
}

/// Relies on `String::from_utf8_lossy`: the result depends on the bytes alone,
/// and bytes that are valid UTF-8 come back as the characters they encode.
#[verifier::external_body]
fn utf8_lossy(b: &[u8]) -> (r: String)
    ensures
        valid_utf8(b@) ==> r@ == decode_utf8(b@),
        !valid_utf8(b@) ==> r@ == lossy_utf8(b@),
{
    String::from_utf8_lossy(b).into_owned()
}

/// Area addresses: one address, preceded by its own length byte.
#[derive(Debug, Clone, PartialEq, Eq)]
pub struct IsisTlvAreaAddr {
    pub area_addr: Vec<u8>,
}

impl IsisTlvAreaAddr {
    /// Decodes the address from the front of `input`: a length byte, then that many bytes.
    pub fn parse_be(input: &[u8]) -> (r: Result<(IsisTlvAreaAddr, usize), ParseError>)
        ensures
            match r {
                Ok((x, n)) => input@.len() >= 1 && input@.len() - 1 >= input@[0] && x.area_addr@
                    == input@.subrange(1, 1 + input@[0] as int) && n == 1 + input@[0],
                Err(e) => e == ParseError::Incomplete && (input@.len() < 1 || input@.len() - 1
                    < input@[0]),
            },
    {
        if input.len() < 1 {
            return Err(ParseError::Incomplete);
        }
        let len = input[0] as usize;
        if input.len() - 1 < len {
            return Err(ParseError::Incomplete);
        }
        let addr = vstd::slice::slice_subrange(input, 1, 1 + len);
        Ok((IsisTlvAreaAddr { area_addr: vstd::slice::slice_to_vec(addr) }, 1 + len))
    }
}

/// The MAC address of a neighbor on a LAN.
#[derive(Debug, Clone, Copy, PartialEq, Eq)]
pub struct IsisTlvIsNeighbor {
    pub octets: [u8; 6],
}

impl IsisTlvIsNeighbor {
    pub fn octets(&self) -> (r: [u8; 6])
        ensures
            r == self.octets,
    {
        self.octets
    }
}

/// Filler bytes; their content carries no meaning.
#[derive(Debug, Clone, PartialEq, Eq)]
pub struct IsisTlvPadding {
    pub padding: Vec<u8>,
}

/// A summary of one LSP, as carried by sequence-number PDUs.
#[derive(Debug, Clone, Copy, PartialEq, Eq)]
pub struct IsisLspEntry {
    pub lifetime: u16,
    pub lsp_id: IsisLspId,
    pub seq_number: u32,
    pub checksum: u16,
}

pub struct LspEntryModel {
    pub lifetime: u16,
    pub lsp_id: Seq<u8>,
    pub seq_number: u32,
    pub checksum: u16,
}

impl View for IsisLspEntry {
    type V = LspEntryModel;

    open spec fn view(&self) -> LspEntryModel {
        LspEntryModel {
            lifetime: self.lifetime,
            lsp_id: self.lsp_id.id@,
            seq_number: self.seq_number,
            checksum: self.checksum,
        }
    }
}

impl Record for IsisLspEntry {
    /// Sixteen bytes: lifetime, LSP ID, sequence number, checksum.
    open spec fn spec_parse(s: Seq<u8>) -> Result<(LspEntryModel, nat), ParseError> {
        if s.len() < 16 {
            Err(ParseError::Incomplete)
        } else {
            Ok(
                (
                    LspEntryModel {
                        lifetime: be16(s, 0),
                        lsp_id: s.subrange(2, 10),
                        seq_number: be32(s, 10),
                        checksum: be16(s, 14),
                    },
                    16,
                ),
            )
        }
    }

    open spec fn spec_bytes(m: LspEntryModel) -> Seq<u8> {
        u16_bytes(m.lifetime) + m.lsp_id + u32_bytes(m.seq_number) + u16_bytes(m.checksum)
    }

    open spec fn spec_wf(m: LspEntryModel) -> bool {
        m.lsp_id.len() == 8
    }

    open spec fn spec_fits(m: LspEntryModel) -> bool {
        m.lsp_id.len() == 8
    }

    proof fn lemma_wf_fits(m: LspEntryModel) {
    }

    proof fn lemma_round_trip(m: LspEntryModel, rest: Seq<u8>) {
        let s = Self::spec_bytes(m) + rest;
        assert(s.subrange(0, 2) =~= u16_bytes(m.lifetime));
        lemma_be16(m.lifetime, s, 0);
        assert(s.subrange(2, 10) =~= m.lsp_id);
        assert(s.subrange(10, 14) =~= u32_bytes(m.seq_number));
        lemma_be32(m.seq_number, s, 10);
        assert(s.subrange(14, 16) =~= u16_bytes(m.checksum));
        lemma_be16(m.checksum, s, 14);
    }

    fn parse(input: &[u8]) -> (r: Result<(Self, usize), ParseError>) {
        if input.len() < 16 {
            return Err(ParseError::Incomplete);
        }
        Ok(
            (
                IsisLspEntry {
                    lifetime: read_u16(input, 0),
                    lsp_id: lsp_id_at(input, 2),
                    seq_number: read_u32(input, 10),
                    checksum: read_u16(input, 14),
                },
                16,
            ),
        )
    }

    fn emit(&self, buf: &mut BytesMut) {
        put_u16(buf, self.lifetime);
        put_slice(buf, vstd::array::array_as_slice(&self.lsp_id.id));
        put_u32(buf, self.seq_number);
        put_u16(buf, self.checksum);
        assert(buf_bytes(*buf) =~= buf_bytes(*old(buf)) + Self::spec_bytes(self@));
    }

    fn wire_len(&self) -> (r: usize) {
        16
    }
}

proof fn lemma_lsp_entries_len(es: Seq<LspEntryModel>)
    requires
        wf_many::<IsisLspEntry>(es),
    ensures
        many_bytes::<IsisLspEntry>(es).len() == 16 * es.len(),
    decreases es.len(),
{
    if es.len() > 0 {
        assert(wf_many::<IsisLspEntry>(es.drop_last())) by {
            assert forall|i: int| 0 <= i < es.drop_last().len() implies #[trigger] <IsisLspEntry as Record>::spec_wf(es.drop_last()[i]) by {
                assert(es.drop_last()[i] == es[i]);
            }
        }
        lemma_lsp_entries_len(es.drop_last());
        assert(<IsisLspEntry as Record>::spec_wf(es[es.len() - 1]));
    }
}

/// LSP entries: as many whole sixteen-byte summaries as the value holds.
#[derive(Debug, Clone, PartialEq, Eq, Default)]
pub struct IsisTlvLspEntries {
    pub entries: Vec<IsisLspEntry>,
}

/// Network-layer protocol identifiers.
pub enum IsisProto {
    Ipv4,
    Ipv6,
    Unknown,
}

impl IsisProto {
    pub fn from_u8(proto: u8) -> (r: IsisProto)
        ensures
            proto == 0xcc ==> r is Ipv4,
            proto == 0x8e ==> r is Ipv6,
            proto != 0xcc && proto != 0x8e ==> r is Unknown,
    {
        match proto {
            0xcc => IsisProto::Ipv4,
            0x8e => IsisProto::Ipv6,
            _ => IsisProto::Unknown,
        }
    }

    pub fn to_u8(&self) -> (r: u8)
        ensures
            self is Ipv4 ==> r == 0xcc,
            self is Ipv6 ==> r == 0x8e,
            self is Unknown ==> r == 0xff,
    {
        match self {
            IsisProto::Ipv4 => 0xcc,
            IsisProto::Ipv6 => 0x8e,
            IsisProto::Unknown => 0xff,
        }
    }
}

/// The name of a network-layer protocol identifier.
pub fn nlpid_str(nlpid: u8) -> (r: &'static str)
    ensures
        nlpid == 0xcc ==> r@ == "IPv4"@,
        nlpid == 0x8e ==> r@ == "IPv6"@,
        nlpid != 0xcc && nlpid != 0x8e ==> r@ == "Unknown"@,
{
    match IsisProto::from_u8(nlpid) {
        IsisProto::Ipv4 => "IPv4",
        IsisProto::Ipv6 => "IPv6",
        _ => "Unknown",
    }
}

/// Supported protocols: one identifier byte each.
#[derive(Debug, Clone, PartialEq, Eq)]
pub struct IsisTlvProtoSupported {
    pub nlpids: Vec<u8>,
}

#[derive(Debug, Clone, Copy, PartialEq, Eq)]
pub struct IsisTlvIpv4IfAddr {
    pub addr: [u8; 4],
}

#[derive(Debug, Clone, Copy, PartialEq, Eq)]
pub struct IsisTlvTeRouterId {
    pub router_id: [u8; 4],
}

/// The dynamic hostname of the originating router.
#[derive(Debug, Clone, PartialEq, Eq)]
pub struct IsisTlvHostname {
    pub hostname: String,
}

impl IsisTlvHostname {
    /// Decodes all of `input` as the hostname, replacing bytes that are not UTF-8.
    pub fn parse_be(input: &[u8]) -> (r: IsisTlvHostname)
        ensures
            r.hostname@ == hostname_of(input@),
    {
        IsisTlvHostname { hostname: utf8_lossy(input) }
    }
}

#[derive(Debug, Clone, Copy, PartialEq, Eq)]
pub struct IsisTlvIpv6TeRouterId {
    pub router_id: [u8; 16],
}

#[derive(Debug, Clone, Copy, PartialEq, Eq)]
pub struct IsisTlvIpv6IfAddr {
    pub addr: [u8; 16],
}

#[derive(Debug, Clone, Copy, PartialEq, Eq)]
pub struct IsisTlvIpv6GlobalIfAddr {
    pub addr: [u8; 16],
}

/// A TLV whose type this codec does not dissect, kept verbatim.  `len` is the
/// length declared on the wire; emission writes the length of `values`.
#[derive(Debug, Clone, PartialEq, Eq)]
pub struct IsisTlvUnknown {
    pub typ: IsisTlvType,
    pub len: u8,
    pub values: Vec<u8>,
}

impl IsisTlvUnknown {
    /// Keeps all of `v` as the value of a TLV of type `typ`.
    pub fn parse_tlv(v: &[u8], typ: IsisTlvType) -> (r: IsisTlvUnknown)
        requires
            v@.len() <= 255,
        ensures
            r.typ == typ,
            r.len as nat == v@.len(),
            r.values@ == v@,
    {
        IsisTlvUnknown { typ, len: v.len() as u8, values: vstd::slice::slice_to_vec(v) }
    }
}

#[derive(Debug, Clone, PartialEq, Eq)]
pub enum IsisTlv {
    AreaAddr(IsisTlvAreaAddr),
    IsNeighbor(IsisTlvIsNeighbor),
    Padding(IsisTlvPadding),
    LspEntries(IsisTlvLspEntries),
    ExtIsReach(IsisTlvExtIsReach),
    ProtoSupported(IsisTlvProtoSupported),
    Ipv4IfAddr(IsisTlvIpv4IfAddr),
    TeRouterId(IsisTlvTeRouterId),
    ExtIpReach(IsisTlvExtIpReach),
    Hostname(IsisTlvHostname),
    Ipv6TeRouterId(IsisTlvIpv6TeRouterId),
    Ipv6IfAddr(IsisTlvIpv6IfAddr),
    Ipv6GlobalIfAddr(IsisTlvIpv6GlobalIfAddr),
    MtIpReach(IsisTlvMtIpReach),
    Ipv6Reach(IsisTlvIpv6Reach),
    MtIpv6Reach(IsisTlvMtIpv6Reach),
    RouterCap(IsisTlvRouterCap),
    Unknown(IsisTlvUnknown),
}

/// A TLV as a value: addresses as byte strings, lists as sequences.
pub enum TlvModel {
    AreaAddr(Seq<u8>),
    IsNeighbor(Seq<u8>),
    Padding(Seq<u8>),
    LspEntries(Seq<LspEntryModel>),
    ExtIsReach(Seq<IsReachEntryModel>),
    ProtoSupported(Seq<u8>),
    Ipv4IfAddr(Seq<u8>),
    TeRouterId(Seq<u8>),
    ExtIpReach(Seq<Ipv4EntryModel>),
    Hostname(Seq<char>),
    Ipv6TeRouterId(Seq<u8>),
    Ipv6IfAddr(Seq<u8>),
    Ipv6GlobalIfAddr(Seq<u8>),
    MtIpReach(MultiTopologyId, Seq<Ipv4EntryModel>),
    Ipv6Reach(Seq<Ipv6EntryModel>),
    MtIpv6Reach(MultiTopologyId, Seq<Ipv6EntryModel>),
    RouterCap(Seq<u8>, u8, Seq<CapSubModel>),
    Unknown(UnknownModel),
}

impl View for IsisTlv {
    type V = TlvModel;

    open spec fn view(&self) -> TlvModel {
        match self {
            IsisTlv::AreaAddr(v) => TlvModel::AreaAddr(v.area_addr@),
            IsisTlv::IsNeighbor(v) => TlvModel::IsNeighbor(v.octets@),
            IsisTlv::Padding(v) => TlvModel::Padding(v.padding@),
            IsisTlv::LspEntries(v) => TlvModel::LspEntries(views(v.entries@)),
            IsisTlv::ExtIsReach(v) => TlvModel::ExtIsReach(v.spec_entries()),
            IsisTlv::ProtoSupported(v) => TlvModel::ProtoSupported(v.nlpids@),
            IsisTlv::Ipv4IfAddr(v) => TlvModel::Ipv4IfAddr(v.addr@),
            IsisTlv::TeRouterId(v) => TlvModel::TeRouterId(v.router_id@),
            IsisTlv::ExtIpReach(v) => TlvModel::ExtIpReach(v.spec_entries()),
            IsisTlv::Hostname(v) => TlvModel::Hostname(v.hostname@),
            IsisTlv::Ipv6TeRouterId(v) => TlvModel::Ipv6TeRouterId(v.router_id@),
            IsisTlv::Ipv6IfAddr(v) => TlvModel::Ipv6IfAddr(v.addr@),
            IsisTlv::Ipv6GlobalIfAddr(v) => TlvModel::Ipv6GlobalIfAddr(v.addr@),
            IsisTlv::MtIpReach(v) => TlvModel::MtIpReach(v.mt, v.spec_entries()),
            IsisTlv::Ipv6Reach(v) => TlvModel::Ipv6Reach(v.spec_entries()),
            IsisTlv::MtIpv6Reach(v) => TlvModel::MtIpv6Reach(v.mt, v.spec_entries()),
            IsisTlv::RouterCap(v) => TlvModel::RouterCap(v.router_id@, v.flags, v.spec_subs()),
            IsisTlv::Unknown(v) => TlvModel::Unknown(
                UnknownModel { code: v.typ.spec_to_u8(), len: v.len, data: v.values@ },
            ),
        }
    }
}

pub open spec fn tlv_code(m: TlvModel) -> u8 {
    match m {
        TlvModel::AreaAddr(_) => 1,
        TlvModel::IsNeighbor(_) => 6,
        TlvModel::Padding(_) => 8,
        TlvModel::LspEntries(_) => 9,
        TlvModel::ExtIsReach(_) => 22,
        TlvModel::ProtoSupported(_) => 129,
        TlvModel::Ipv4IfAddr(_) => 132,
        TlvModel::TeRouterId(_) => 134,
        TlvModel::ExtIpReach(_) => 135,
        TlvModel::Hostname(_) => 137,
        TlvModel::Ipv6TeRouterId(_) => 140,
        TlvModel::Ipv6IfAddr(_) => 232,
        TlvModel::Ipv6GlobalIfAddr(_) => 233,
        TlvModel::MtIpReach(..) => 235,
        TlvModel::Ipv6Reach(_) => 236,
        TlvModel::MtIpv6Reach(..) => 237,
        TlvModel::RouterCap(..) => 242,
        TlvModel::Unknown(u) => u.code,
    }
}

pub open spec fn tlv_value(m: TlvModel) -> Seq<u8> {
    match m {
        TlvModel::AreaAddr(a) => seq![a.len() as u8] + a,
        TlvModel::IsNeighbor(o) => o,
        TlvModel::Padding(p) => p,
        TlvModel::LspEntries(es) => many_bytes::<IsisLspEntry>(es),
        TlvModel::ExtIsReach(es) => many_bytes::<IsisTlvExtIsReachEntry>(es),
        TlvModel::ProtoSupported(n) => n,
        TlvModel::Ipv4IfAddr(a) => a,
        TlvModel::TeRouterId(a) => a,
        TlvModel::ExtIpReach(es) => many_bytes::<IsisTlvExtIpReachEntry>(es),
        TlvModel::Hostname(h) => encode_utf8(h),
        TlvModel::Ipv6TeRouterId(a) => a,
        TlvModel::Ipv6IfAddr(a) => a,
        TlvModel::Ipv6GlobalIfAddr(a) => a,
        TlvModel::MtIpReach(mt, es) => u16_bytes(mt.bits) + many_bytes::<IsisTlvExtIpReachEntry>(es),
        TlvModel::Ipv6Reach(es) => many_bytes::<IsisTlvIpv6ReachEntry>(es),
        TlvModel::MtIpv6Reach(mt, es) => u16_bytes(mt.bits) + many_bytes::<IsisTlvIpv6ReachEntry>(
            es,
        ),
        TlvModel::RouterCap(id, f, subs) => id + seq![f] + many_bytes::<crate::cap::IsisSubTlv>(subs),
        TlvModel::Unknown(u) => u.data,
    }
}

/// A TLV that can be written out and read back as it is: every length fits
/// its field, nested records are valid, and an unknown TLV carries a code
/// outside the known set with a declared length that matches its value.
pub open spec fn tlv_wf(m: TlvModel) -> bool {
    match m {
        TlvModel::AreaAddr(a) => a.len() <= 254,
        TlvModel::IsNeighbor(o) => o.len() == 6,
        TlvModel::Padding(p) => p.len() <= 255,
        TlvModel::LspEntries(es) => wf_many::<IsisLspEntry>(es) && many_bytes::<IsisLspEntry>(
            es,
        ).len() <= 255,
        TlvModel::ExtIsReach(es) => wf_many::<IsisTlvExtIsReachEntry>(es) && many_bytes::<
            IsisTlvExtIsReachEntry,
        >(es).len() <= 255,
        TlvModel::ProtoSupported(n) => n.len() <= 255,
        TlvModel::Ipv4IfAddr(a) => a.len() == 4,
        TlvModel::TeRouterId(a) => a.len() == 4,
        TlvModel::ExtIpReach(es) => wf_many::<IsisTlvExtIpReachEntry>(es) && many_bytes::<
            IsisTlvExtIpReachEntry,
        >(es).len() <= 255,
        TlvModel::Hostname(h) => encode_utf8(h).len() <= 255,
        TlvModel::Ipv6TeRouterId(a) => a.len() == 16,
        TlvModel::Ipv6IfAddr(a) => a.len() == 16,
        TlvModel::Ipv6GlobalIfAddr(a) => a.len() == 16,
        TlvModel::MtIpReach(_, es) => wf_many::<IsisTlvExtIpReachEntry>(es) && many_bytes::<
            IsisTlvExtIpReachEntry,
        >(es).len() <= 253,
        TlvModel::Ipv6Reach(es) => wf_many::<IsisTlvIpv6ReachEntry>(es) && many_bytes::<
            IsisTlvIpv6ReachEntry,
        >(es).len() <= 255,
        TlvModel::MtIpv6Reach(_, es) => wf_many::<IsisTlvIpv6ReachEntry>(es) && many_bytes::<
            IsisTlvIpv6ReachEntry,
        >(es).len() <= 253,
        TlvModel::RouterCap(id, _, subs) => id.len() == 4 && wf_many::<crate::cap::IsisSubTlv>(
            subs,
        ) && many_bytes::<crate::cap::IsisSubTlv>(subs).len() <= 250,
        TlvModel::Unknown(u) => unknown_wf(u) && !IsisTlvType::spec_from_u8(u.code).spec_is_known(),
    }
}

/// A TLV that can be written out: every length fits its field.
pub open spec fn tlv_fits(m: TlvModel) -> bool {
    match m {
        TlvModel::AreaAddr(a) => a.len() <= 254,
        TlvModel::IsNeighbor(o) => o.len() == 6,
        TlvModel::Padding(p) => p.len() <= 255,
        TlvModel::LspEntries(es) => fits_many::<IsisLspEntry>(es) && many_bytes::<IsisLspEntry>(
            es,
        ).len() <= 255,
        TlvModel::ExtIsReach(es) => fits_many::<IsisTlvExtIsReachEntry>(es) && many_bytes::<
            IsisTlvExtIsReachEntry,
        >(es).len() <= 255,
        TlvModel::ProtoSupported(n) => n.len() <= 255,
        TlvModel::Ipv4IfAddr(a) => a.len() == 4,
        TlvModel::TeRouterId(a) => a.len() == 4,
        TlvModel::ExtIpReach(es) => fits_many::<IsisTlvExtIpReachEntry>(es) && many_bytes::<
            IsisTlvExtIpReachEntry,
        >(es).len() <= 255,
        TlvModel::Hostname(h) => encode_utf8(h).len() <= 255,
        TlvModel::Ipv6TeRouterId(a) => a.len() == 16,
        TlvModel::Ipv6IfAddr(a) => a.len() == 16,
        TlvModel::Ipv6GlobalIfAddr(a) => a.len() == 16,
        TlvModel::MtIpReach(_, es) => fits_many::<IsisTlvExtIpReachEntry>(es) && many_bytes::<
            IsisTlvExtIpReachEntry,
        >(es).len() <= 253,
        TlvModel::Ipv6Reach(es) => fits_many::<IsisTlvIpv6ReachEntry>(es) && many_bytes::<
            IsisTlvIpv6ReachEntry,
        >(es).len() <= 255,
        TlvModel::MtIpv6Reach(_, es) => fits_many::<IsisTlvIpv6ReachEntry>(es) && many_bytes::<
            IsisTlvIpv6ReachEntry,
        >(es).len() <= 253,
        TlvModel::RouterCap(id, _, subs) => id.len() == 4 && fits_many::<crate::cap::IsisSubTlv>(
            subs,
        ) && many_bytes::<crate::cap::IsisSubTlv>(subs).len() <= 250,
        TlvModel::Unknown(u) => u.data.len() <= 255,
    }
}

proof fn lemma_tlv_value_len(m: TlvModel)
    requires
        tlv_fits(m),
    ensures
        tlv_value(m).len() <= 255,
{
}

proof fn lemma_tlv_wf_fits(m: TlvModel)
    requires
        tlv_wf(m),
    ensures
        tlv_fits(m),
{
    match m {
        TlvModel::LspEntries(es) => lemma_wf_fits_many::<IsisLspEntry>(es),
        TlvModel::ExtIsReach(es) => lemma_wf_fits_many::<IsisTlvExtIsReachEntry>(es),
        TlvModel::ExtIpReach(es) => lemma_wf_fits_many::<IsisTlvExtIpReachEntry>(es),
        TlvModel::MtIpReach(_, es) => lemma_wf_fits_many::<IsisTlvExtIpReachEntry>(es),
        TlvModel::Ipv6Reach(es) => lemma_wf_fits_many::<IsisTlvIpv6ReachEntry>(es),
        TlvModel::MtIpv6Reach(_, es) => lemma_wf_fits_many::<IsisTlvIpv6ReachEntry>(es),
        TlvModel::RouterCap(_, _, subs) => lemma_wf_fits_many::<crate::cap::IsisSubTlv>(subs),
        _ => {},
    }
}

/// Decodes the value bytes `v` of a TLV of type `code`.  Each decoder reads
/// only `v`; bytes it leaves unread are ignored.
pub open spec fn spec_decode_tlv(code: u8, v: Seq<u8>) -> Result<TlvModel, ParseError> {
    match IsisTlvType::spec_from_u8(code) {
        IsisTlvType::AreaAddr => if v.len() < 1 || v.len() - 1 < v[0] {
            Err(ParseError::Incomplete)
        } else {
            Ok(TlvModel::AreaAddr(v.subrange(1, 1 + v[0] as int)))
        },
        IsisTlvType::IsNeighbor => if v.len() < 6 {
            Err(ParseError::Incomplete)
        } else {
            Ok(TlvModel::IsNeighbor(v.subrange(0, 6)))
        },
        IsisTlvType::Padding => Ok(TlvModel::Padding(v)),
        IsisTlvType::LspEntries => match parse_many::<IsisLspEntry>(
            v.subrange(0, v.len() - v.len() % 16),
        ) {
            Ok(es) => Ok(TlvModel::LspEntries(es)),
            Err(e) => Err(e),
        },
        IsisTlvType::ExtIsReach => match parse_many::<IsisTlvExtIsReachEntry>(v) {
            Ok(es) => Ok(TlvModel::ExtIsReach(es)),
            Err(e) => Err(e),
        },
        IsisTlvType::ProtSupported => Ok(TlvModel::ProtoSupported(v)),
        IsisTlvType::Ipv4IfAddr => if v.len() < 4 {
            Err(ParseError::Incomplete)
        } else {
            Ok(TlvModel::Ipv4IfAddr(v.subrange(0, 4)))
        },
        IsisTlvType::TeRouterId => if v.len() < 4 {
            Err(ParseError::Incomplete)
        } else {
            Ok(TlvModel::TeRouterId(v.subrange(0, 4)))
        },
        IsisTlvType::ExtIpReach => match parse_many::<IsisTlvExtIpReachEntry>(v) {
            Ok(es) => Ok(TlvModel::ExtIpReach(es)),
            Err(e) => Err(e),
        },
        IsisTlvType::DynamicHostname => Ok(TlvModel::Hostname(hostname_of(v))),
        IsisTlvType::Ipv6TeRouterId => if v.len() < 16 {
            Err(ParseError::Incomplete)
        } else {
            Ok(TlvModel::Ipv6TeRouterId(v.subrange(0, 16)))
        },
        IsisTlvType::Ipv6IfAddr => if v.len() < 16 {
            Err(ParseError::Incomplete)
        } else {
            Ok(TlvModel::Ipv6IfAddr(v.subrange(0, 16)))
        },
        IsisTlvType::Ipv6GlobalIfAddr => if v.len() < 16 {
            Err(ParseError::Incomplete)
        } else {
            Ok(TlvModel::Ipv6GlobalIfAddr(v.subrange(0, 16)))
        },
        IsisTlvType::MtIpReach => if v.len() < 2 {
            Err(ParseError::Incomplete)
        } else {
            match parse_many::<IsisTlvExtIpReachEntry>(v.subrange(2, v.len() as int)) {
                Ok(es) => Ok(TlvModel::MtIpReach(MultiTopologyId { bits: be16(v, 0) }, es)),
                Err(e) => Err(e),
            }
        },
        IsisTlvType::Ipv6Reach => match parse_many::<IsisTlvIpv6ReachEntry>(v) {
            Ok(es) => Ok(TlvModel::Ipv6Reach(es)),
            Err(e) => Err(e),
        },
        IsisTlvType::MtIpv6Reach => if v.len() < 2 {
            Err(ParseError::Incomplete)
        } else {
            match parse_many::<IsisTlvIpv6ReachEntry>(v.subrange(2, v.len() as int)) {
                Ok(es) => Ok(TlvModel::MtIpv6Reach(MultiTopologyId { bits: be16(v, 0) }, es)),
                Err(e) => Err(e),
            }
        },
        IsisTlvType::RouterCap => if v.len() < 5 {
            Err(ParseError::Incomplete)
        } else {
            match parse_many::<crate::cap::IsisSubTlv>(v.subrange(5, v.len() as int)) {
                Ok(subs) => Ok(TlvModel::RouterCap(v.subrange(0, 4), v[4], subs)),
                Err(e) => Err(e),
            }
        },
        IsisTlvType::Unknown(_) => Ok(
            TlvModel::Unknown(UnknownModel { code, len: v.len() as u8, data: v }),
        ),
    }
}

#[verifier::spinoff_prover]
#[verifier::rlimit(40)]
proof fn lemma_decode_lsp_entries(es: Seq<LspEntryModel>)
    requires
        tlv_wf(TlvModel::LspEntries(es)),
    ensures
        spec_decode_tlv(9, tlv_value(TlvModel::LspEntries(es))) == Ok::<TlvModel, ParseError>(
            TlvModel::LspEntries(es),
        ),
        tlv_value(TlvModel::LspEntries(es)).len() <= 255,
{
    let v = tlv_value(TlvModel::LspEntries(es));
    lemma_lsp_entries_len(es);
    let k = es.len();
    assert((16 * k) % 16 == 0) by (nonlinear_arith);
    assert(v.subrange(0, v.len() - v.len() % 16) =~= v);
    lemma_many_round_trip::<IsisLspEntry>(es);
}

#[verifier::spinoff_prover]
#[verifier::rlimit(40)]
proof fn lemma_decode_ext_is(es: Seq<IsReachEntryModel>)
    requires
        tlv_wf(TlvModel::ExtIsReach(es)),
    ensures
        spec_decode_tlv(22, tlv_value(TlvModel::ExtIsReach(es))) == Ok::<TlvModel, ParseError>(
            TlvModel::ExtIsReach(es),
        ),
        tlv_value(TlvModel::ExtIsReach(es)).len() <= 255,
{
    let v = tlv_value(TlvModel::ExtIsReach(es));
    lemma_many_round_trip::<IsisTlvExtIsReachEntry>(es);
}

#[verifier::spinoff_prover]
#[verifier::rlimit(40)]
proof fn lemma_decode_ext_ip(es: Seq<Ipv4EntryModel>)
    requires
        tlv_wf(TlvModel::ExtIpReach(es)),
    ensures
        spec_decode_tlv(135, tlv_value(TlvModel::ExtIpReach(es))) == Ok::<TlvModel, ParseError>(
            TlvModel::ExtIpReach(es),
        ),
        tlv_value(TlvModel::ExtIpReach(es)).len() <= 255,
{
    let v = tlv_value(TlvModel::ExtIpReach(es));
    lemma_many_round_trip::<IsisTlvExtIpReachEntry>(es);
}

#[verifier::spinoff_prover]
#[verifier::rlimit(40)]
proof fn lemma_decode_ipv6(es: Seq<Ipv6EntryModel>)
    requires
        tlv_wf(TlvModel::Ipv6Reach(es)),
    ensures
        spec_decode_tlv(236, tlv_value(TlvModel::Ipv6Reach(es))) == Ok::<TlvModel, ParseError>(
            TlvModel::Ipv6Reach(es),
        ),
        tlv_value(TlvModel::Ipv6Reach(es)).len() <= 255,
{
    let v = tlv_value(TlvModel::Ipv6Reach(es));
    lemma_many_round_trip::<IsisTlvIpv6ReachEntry>(es);
}

#[verifier::spinoff_prover]
#[verifier::rlimit(40)]
proof fn lemma_decode_hostname(h: Seq<char>)
    requires
        tlv_wf(TlvModel::Hostname(h)),
    ensures
        spec_decode_tlv(137, tlv_value(TlvModel::Hostname(h))) == Ok::<TlvModel, ParseError>(
            TlvModel::Hostname(h),
        ),
        tlv_value(TlvModel::Hostname(h)).len() <= 255,
{
    let v = tlv_value(TlvModel::Hostname(h));
    vstd::utf8::encode_utf8_valid_utf8(h);
    vstd::utf8::encode_utf8_decode_utf8(h);
}

#[verifier::spinoff_prover]
#[verifier::rlimit(40)]
proof fn lemma_decode_mt_ip(mt: MultiTopologyId, es: Seq<Ipv4EntryModel>)
    requires
        tlv_wf(TlvModel::MtIpReach(mt, es)),
    ensures
        spec_decode_tlv(235, tlv_value(TlvModel::MtIpReach(mt, es))) == Ok::<TlvModel, ParseError>(
            TlvModel::MtIpReach(mt, es),
        ),
        tlv_value(TlvModel::MtIpReach(mt, es)).len() <= 255,
{
    let v = tlv_value(TlvModel::MtIpReach(mt, es));
    assert(v.subrange(0, 2) =~= u16_bytes(mt.bits));
    lemma_be16(mt.bits, v, 0);
    assert(v.subrange(2, v.len() as int) =~= many_bytes::<IsisTlvExtIpReachEntry>(es));
    lemma_many_round_trip::<IsisTlvExtIpReachEntry>(es);
}

#[verifier::spinoff_prover]
#[verifier::rlimit(40)]
proof fn lemma_decode_mt_ipv6(mt: MultiTopologyId, es: Seq<Ipv6EntryModel>)
    requires
        tlv_wf(TlvModel::MtIpv6Reach(mt, es)),
    ensures
        spec_decode_tlv(237, tlv_value(TlvModel::MtIpv6Reach(mt, es))) == Ok::<TlvModel, ParseError>(
            TlvModel::MtIpv6Reach(mt, es),
        ),
        tlv_value(TlvModel::MtIpv6Reach(mt, es)).len() <= 255,
{
    let v = tlv_value(TlvModel::MtIpv6Reach(mt, es));
    assert(v.subrange(0, 2) =~= u16_bytes(mt.bits));
    lemma_be16(mt.bits, v, 0);
    assert(v.subrange(2, v.len() as int) =~= many_bytes::<IsisTlvIpv6ReachEntry>(es));
    lemma_many_round_trip::<IsisTlvIpv6ReachEntry>(es);
}

#[verifier::spinoff_prover]
#[verifier::rlimit(40)]
proof fn lemma_decode_router_cap(id: Seq<u8>, f: u8, subs: Seq<CapSubModel>)
    requires
        tlv_wf(TlvModel::RouterCap(id, f, subs)),
    ensures
        spec_decode_tlv(242, tlv_value(TlvModel::RouterCap(id, f, subs))) == Ok::<TlvModel, ParseError>(
            TlvModel::RouterCap(id, f, subs),
        ),
        tlv_value(TlvModel::RouterCap(id, f, subs)).len() <= 255,
{
    let v = tlv_value(TlvModel::RouterCap(id, f, subs));
    assert(v.subrange(0, 4) =~= id);
    assert(v.subrange(5, v.len() as int) =~= many_bytes::<crate::cap::IsisSubTlv>(subs));
    lemma_many_round_trip::<crate::cap::IsisSubTlv>(subs);
}

#[verifier::spinoff_prover]
#[verifier::rlimit(40)]
proof fn lemma_decode_fixed(m: TlvModel)
    requires
        tlv_wf(m),
        !(m is LspEntries || m is ExtIsReach || m is ExtIpReach || m is Ipv6Reach || m is MtIpReach
            || m is MtIpv6Reach || m is RouterCap || m is Hostname),
    ensures
        spec_decode_tlv(tlv_code(m), tlv_value(m)) == Ok::<TlvModel, ParseError>(m),
        tlv_value(m).len() <= 255,
{
    let v = tlv_value(m);
    match m {
        TlvModel::AreaAddr(a) => {
            assert(v.subrange(1, 1 + v[0] as int) =~= a);
        },
        TlvModel::IsNeighbor(o) => {
            assert(v.subrange(0, 6) =~= o);
        },
        TlvModel::Ipv4IfAddr(a) => {
            assert(v.subrange(0, 4) =~= a);
        },
        TlvModel::TeRouterId(a) => {
            assert(v.subrange(0, 4) =~= a);
        },
        TlvModel::Ipv6TeRouterId(a) => {
            assert(v.subrange(0, 16) =~= a);
        },
        TlvModel::Ipv6IfAddr(a) => {
            assert(v.subrange(0, 16) =~= a);
        },
        TlvModel::Ipv6GlobalIfAddr(a) => {
            assert(v.subrange(0, 16) =~= a);
        },
        _ => {},
    }
}

#[verifier::spinoff_prover]
#[verifier::rlimit(60)]
proof fn lemma_decode_tlv(m: TlvModel)
    requires
        tlv_wf(m),
    ensures
        spec_decode_tlv(tlv_code(m), tlv_value(m)) == Ok::<TlvModel, ParseError>(m),
        tlv_value(m).len() <= 255,
{
    match m {
        TlvModel::LspEntries(es) => lemma_decode_lsp_entries(es),
        TlvModel::ExtIsReach(es) => lemma_decode_ext_is(es),
        TlvModel::ExtIpReach(es) => lemma_decode_ext_ip(es),
        TlvModel::Hostname(h) => lemma_decode_hostname(h),
        TlvModel::MtIpReach(mt, es) => lemma_decode_mt_ip(mt, es),
        TlvModel::Ipv6Reach(es) => lemma_decode_ipv6(es),
        TlvModel::MtIpv6Reach(mt, es) => lemma_decode_mt_ipv6(mt, es),
        TlvModel::RouterCap(id, f, subs) => lemma_decode_router_cap(id, f, subs),
        _ => lemma_decode_fixed(m),
    }
}

impl IsisTlv {
    pub open spec fn spec_fits(&self) -> bool {
        tlv_fits(self@)
    }

    /// Decodes the value bytes `v` of a TLV of type `code`.
    #[verifier::spinoff_prover]
    #[verifier::rlimit(40)]
    pub fn decode_value(code: u8, v: &[u8]) -> (r: Result<IsisTlv, ParseError>)
        requires
            v@.len() <= 255,
        ensures
            match r {
                Ok(x) => spec_decode_tlv(code, v@) == Ok::<TlvModel, ParseError>(x@),
                Err(e) => spec_decode_tlv(code, v@) == Err::<TlvModel, ParseError>(e),
            },
    {
        let typ = IsisTlvType::from_u8(code);
        match typ {
            IsisTlvType::AreaAddr => match IsisTlvAreaAddr::parse_be(v) {
                Ok((x, _)) => Ok(IsisTlv::AreaAddr(x)),
                Err(e) => Err(e),
            },
            IsisTlvType::IsNeighbor => {
                if v.len() < 6 {
                    return Err(ParseError::Incomplete);
                }
                let octets = [v[0], v[1], v[2], v[3], v[4], v[5]];
                assert(octets@ =~= v@.subrange(0, 6));
                Ok(IsisTlv::IsNeighbor(IsisTlvIsNeighbor { octets }))
            },
            IsisTlvType::Padding => Ok(
                IsisTlv::Padding(IsisTlvPadding { padding: vstd::slice::slice_to_vec(v) }),
            ),
            IsisTlvType::LspEntries => {
                let whole = vstd::slice::slice_subrange(v, 0, v.len() - v.len() % 16);
                match many0::<IsisLspEntry>(whole) {
                    Ok(entries) => Ok(IsisTlv::LspEntries(IsisTlvLspEntries { entries })),
                    Err(e) => Err(e),
                }
            },
            IsisTlvType::ExtIsReach => match IsisTlvExtIsReach::parse_be(v) {
                Ok(x) => Ok(IsisTlv::ExtIsReach(x)),
                Err(e) => Err(e),
            },
            IsisTlvType::ProtSupported => Ok(
                IsisTlv::ProtoSupported(IsisTlvProtoSupported { nlpids: vstd::slice::slice_to_vec(v) }),
            ),
            IsisTlvType::Ipv4IfAddr => {
                if v.len() < 4 {
                    return Err(ParseError::Incomplete);
                }
                Ok(IsisTlv::Ipv4IfAddr(IsisTlvIpv4IfAddr { addr: ipv4_at(v, 0) }))
            },
            IsisTlvType::TeRouterId => {
                if v.len() < 4 {
                    return Err(ParseError::Incomplete);
                }
                Ok(IsisTlv::TeRouterId(IsisTlvTeRouterId { router_id: ipv4_at(v, 0) }))
            },
            IsisTlvType::ExtIpReach => match IsisTlvExtIpReach::parse_be(v) {
                Ok(x) => Ok(IsisTlv::ExtIpReach(x)),
                Err(e) => Err(e),
            },
            IsisTlvType::DynamicHostname => Ok(IsisTlv::Hostname(IsisTlvHostname::parse_be(v))),
            IsisTlvType::Ipv6TeRouterId => {
                if v.len() < 16 {
                    return Err(ParseError::Incomplete);
                }
                Ok(IsisTlv::Ipv6TeRouterId(IsisTlvIpv6TeRouterId { router_id: ipv6_at(v, 0) }))
            },
            IsisTlvType::Ipv6IfAddr => {
                if v.len() < 16 {
                    return Err(ParseError::Incomplete);
                }
                Ok(IsisTlv::Ipv6IfAddr(IsisTlvIpv6IfAddr { addr: ipv6_at(v, 0) }))
            },
            IsisTlvType::Ipv6GlobalIfAddr => {
                if v.len() < 16 {
                    return Err(ParseError::Incomplete);
                }
                Ok(IsisTlv::Ipv6GlobalIfAddr(IsisTlvIpv6GlobalIfAddr { addr: ipv6_at(v, 0) }))
            },
            IsisTlvType::MtIpReach => match IsisTlvMtIpReach::parse_be(v) {
                Ok(x) => Ok(IsisTlv::MtIpReach(x)),
                Err(e) => Err(e),
            },
            IsisTlvType::Ipv6Reach => match IsisTlvIpv6Reach::parse_be(v) {
                Ok(x) => Ok(IsisTlv::Ipv6Reach(x)),
                Err(e) => Err(e),
            },
            IsisTlvType::MtIpv6Reach => match IsisTlvMtIpv6Reach::parse_be(v) {
                Ok(x) => Ok(IsisTlv::MtIpv6Reach(x)),
                Err(e) => Err(e),
            },
            IsisTlvType::RouterCap => match IsisTlvRouterCap::parse_be(v) {
                Ok(x) => Ok(IsisTlv::RouterCap(x)),
                Err(e) => Err(e),
            },
            IsisTlvType::Unknown(_) => Ok(IsisTlv::Unknown(IsisTlvUnknown::parse_tlv(v, typ))),
        }
    }

    /// Reads one TLV from the front of `input`; returns it and the bytes it took.
    /// The TLV's decoder sees only the bytes its length field declares.
    pub fn parse_tlv(input: &[u8]) -> (r: Result<(IsisTlv, usize), ParseError>)
        ensures
            match r {
                Ok((x, n)) => <IsisTlv as Record>::spec_parse(input@) == Ok::<
                    (TlvModel, nat),
                    ParseError,
                >((x@, n as nat)) && 0 < n <= input@.len(),
                Err(e) => <IsisTlv as Record>::spec_parse(input@) == Err::<(TlvModel, nat), ParseError>(
                    e,
                ),
            },
    {
        match split_tlv(input) {
            Err(e) => Err(e),
            Ok((code, v, n)) => match Self::decode_value(code, v) {
                Ok(x) => Ok((x, n)),
                Err(e) => Err(e),
            },
        }
    }

    /// Reads TLVs back to back until `input` is used up.
    pub fn parse_tlvs(input: &[u8]) -> (r: Result<Vec<IsisTlv>, ParseError>)
        ensures
            match r {
                Ok(v) => parse_many::<IsisTlv>(input@) == Ok::<Seq<TlvModel>, ParseError>(views(v@)),
                Err(e) => parse_many::<IsisTlv>(input@) == Err::<Seq<TlvModel>, ParseError>(e),
            },
    {
        many0::<IsisTlv>(input)
    }

    /// The type code.
    pub fn typ(&self) -> (r: u8)
        ensures
            r == tlv_code(self@),
    {
        match self {
            IsisTlv::AreaAddr(_) => 1,
            IsisTlv::IsNeighbor(_) => 6,
            IsisTlv::Padding(_) => 8,
            IsisTlv::LspEntries(_) => 9,
            IsisTlv::ExtIsReach(_) => 22,
            IsisTlv::ProtoSupported(_) => 129,
            IsisTlv::Ipv4IfAddr(_) => 132,
            IsisTlv::TeRouterId(_) => 134,
            IsisTlv::ExtIpReach(_) => 135,
            IsisTlv::Hostname(_) => 137,
            IsisTlv::Ipv6TeRouterId(_) => 140,
            IsisTlv::Ipv6IfAddr(_) => 232,
            IsisTlv::Ipv6GlobalIfAddr(_) => 233,
            IsisTlv::MtIpReach(_) => 235,
            IsisTlv::Ipv6Reach(_) => 236,
            IsisTlv::MtIpv6Reach(_) => 237,
            IsisTlv::RouterCap(_) => 242,
            IsisTlv::Unknown(v) => v.typ.to_u8(),
        }
    }

    /// The length of the value, computed from the content.
    #[verifier::spinoff_prover]
    #[verifier::rlimit(60)]
    pub fn len(&self) -> (r: u8)
        requires
            self.spec_fits(),
        ensures
            r as nat == tlv_value(self@).len(),
    {
        proof {
            lemma_tlv_value_len(self@);
        }
        match self {
            IsisTlv::AreaAddr(v) => v.area_addr.len() as u8 + 1,
            IsisTlv::IsNeighbor(_) => 6,
            IsisTlv::Padding(v) => v.padding.len() as u8,
            IsisTlv::LspEntries(v) => many_len::<IsisLspEntry>(&v.entries) as u8,
            IsisTlv::ExtIsReach(v) => v.len(),
            IsisTlv::ProtoSupported(v) => v.nlpids.len() as u8,
            IsisTlv::Ipv4IfAddr(_) => 4,
            IsisTlv::TeRouterId(_) => 4,
            IsisTlv::ExtIpReach(v) => v.len(),
            IsisTlv::Hostname(v) => v.hostname.as_str().as_bytes().len() as u8,
            IsisTlv::Ipv6TeRouterId(_) => 16,
            IsisTlv::Ipv6IfAddr(_) => 16,
            IsisTlv::Ipv6GlobalIfAddr(_) => 16,
            IsisTlv::MtIpReach(v) => v.len(),
            IsisTlv::Ipv6Reach(v) => v.len(),
            IsisTlv::MtIpv6Reach(v) => v.len(),
            IsisTlv::RouterCap(v) => v.len(),
            IsisTlv::Unknown(v) => v.values.len() as u8,
        }
    }

    /// Writes the type, the length computed from the content, and the value.
    #[verifier::spinoff_prover]
    #[verifier::rlimit(60)]
    pub fn emit(&self, buf: &mut BytesMut)
        requires
            self.spec_fits(),
            buf_bytes(*old(buf)).len() + tlv_bytes(tlv_code(self@), tlv_value(self@)).len()
                <= isize::MAX,
        ensures
            buf_bytes(*final(buf)) == buf_bytes(*old(buf)) + tlv_bytes(tlv_code(self@), tlv_value(self@)),
            self is Unknown ==> buf_bytes(*final(buf)) == buf_bytes(*old(buf)) + seq![
                self->Unknown_0.typ.spec_to_u8(),
                self->Unknown_0.values@.len() as u8,
            ] + self->Unknown_0.values@,
    {
        proof {
            lemma_tlv_value_len(self@);
        }
        put_u8(buf, self.typ());
        put_u8(buf, self.len());
        let ghost mid = buf_bytes(*buf);
        match self {
            IsisTlv::AreaAddr(v) => {
                put_u8(buf, v.area_addr.len() as u8);
                put_slice(buf, v.area_addr.as_slice());
            },
            IsisTlv::IsNeighbor(v) => put_slice(buf, vstd::array::array_as_slice(&v.octets)),
            IsisTlv::Padding(v) => put_slice(buf, v.padding.as_slice()),
            IsisTlv::LspEntries(v) => emit_many::<IsisLspEntry>(&v.entries, buf),
            IsisTlv::ExtIsReach(v) => v.emit(buf),
            IsisTlv::ProtoSupported(v) => put_slice(buf, v.nlpids.as_slice()),
            IsisTlv::Ipv4IfAddr(v) => put_slice(buf, vstd::array::array_as_slice(&v.addr)),
            IsisTlv::TeRouterId(v) => put_slice(buf, vstd::array::array_as_slice(&v.router_id)),
            IsisTlv::ExtIpReach(v) => v.emit(buf),
            IsisTlv::Hostname(v) => put_slice(buf, v.hostname.as_str().as_bytes()),
            IsisTlv::Ipv6TeRouterId(v) => put_slice(buf, vstd::array::array_as_slice(&v.router_id)),
            IsisTlv::Ipv6IfAddr(v) => put_slice(buf, vstd::array::array_as_slice(&v.addr)),
            IsisTlv::Ipv6GlobalIfAddr(v) => put_slice(buf, vstd::array::array_as_slice(&v.addr)),
            IsisTlv::MtIpReach(v) => v.emit(buf),
            IsisTlv::Ipv6Reach(v) => v.emit(buf),
            IsisTlv::MtIpv6Reach(v) => v.emit(buf),
            IsisTlv::RouterCap(v) => v.emit(buf),
            IsisTlv::Unknown(v) => put_slice(buf, v.values.as_slice()),
        }
        assert(buf_bytes(*buf) =~= mid + tlv_value(self@));
        assert(buf_bytes(*buf) =~= buf_bytes(*old(buf)) + tlv_bytes(tlv_code(self@), tlv_value(self@)));
    }
}

impl Record for IsisTlv {
    open spec fn spec_parse(s: Seq<u8>) -> Result<(TlvModel, nat), ParseError> {
        match spec_split_tlv(s) {
            Err(e) => Err(e),
            Ok((code, v, n)) => match spec_decode_tlv(code, v) {
                Ok(m) => Ok((m, n)),
                Err(e) => Err(e),
            },
        }
    }

    open spec fn spec_bytes(m: TlvModel) -> Seq<u8> {
        tlv_bytes(tlv_code(m), tlv_value(m))
    }

    open spec fn spec_wf(m: TlvModel) -> bool {
        tlv_wf(m)
    }

    open spec fn spec_fits(m: TlvModel) -> bool {
        tlv_fits(m)
    }

    proof fn lemma_wf_fits(m: TlvModel) {
        lemma_tlv_wf_fits(m);
    }

    proof fn lemma_round_trip(m: TlvModel, rest: Seq<u8>) {
        lemma_decode_tlv(m);
        lemma_split_tlv(tlv_code(m), tlv_value(m), rest);
    }

    fn parse(input: &[u8]) -> (r: Result<(Self, usize), ParseError>) {
        Self::parse_tlv(input)
    }

    fn emit(&self, buf: &mut BytesMut) {
        IsisTlv::emit(self, buf)
    }

    fn wire_len(&self) -> (r: usize) {
        self.len() as usize + 2
    }
}

} // verus!
