//! Packet framing and the PDU bodies: fixed header fields, then a TLV list
//! that runs to the end of the packet.  Emission writes a placeholder for the
//! PDU length and patches in the real byte count once everything is written.

use vstd::prelude::*;
use bytes::BytesMut;
use crate::buf::{buf_bytes, buf_len, patch_u16, put_slice, put_u8};
use crate::codes::IsisType;
use crate::ident::{lsp_id_at, neighbor_id_at, sys_id_at, IsisLspId, IsisNeighborId, IsisSysId};
use crate::record::{
    emit_many, lemma_many_round_trip, many_bytes, parse_many, views, wf_many, fits_many,
};
use crate::tlv::{IsisTlv, TlvModel};
use crate::wire::{
    be16, be32, lemma_be16, lemma_be32, put_u16, put_u32, read_u16, read_u32, u16_bytes,
    u32_bytes, ParseError,
};

verus! {

/// The protocol discriminator that starts every packet.
pub const ISIS_IRDP_DISC: u8 = 0x83;

/// The value a PDU's length field receives when the buffer holds `total` bytes
/// at the end of emission.
pub open spec fn len_field(total: nat) -> u16 {
    (total % 65536) as u16
}

fn len_field_exec(total: usize) -> (r: u16)
    ensures
        r == len_field(total as nat),
{
    (total % 65536) as u16
}

// ---------------------------------------------------------------- Hello

#[derive(Debug, Clone, PartialEq, Eq)]
pub struct IsisHello {
    pub circuit_type: u8,
    pub source_id: IsisSysId,
    pub hold_timer: u16,
    pub pdu_len: u16,
    pub priority: u8,
    pub lan_id: IsisNeighborId,
    pub tlvs: Vec<IsisTlv>,
}

pub struct HelloModel {
    pub circuit_type: u8,
    pub source_id: Seq<u8>,
    pub hold_timer: u16,
    pub pdu_len: u16,
    pub priority: u8,
    pub lan_id: Seq<u8>,
    pub tlvs: Seq<TlvModel>,
}

impl View for IsisHello {
    type V = HelloModel;

    open spec fn view(&self) -> HelloModel {
        HelloModel {
            circuit_type: self.circuit_type,
            source_id: self.source_id.id@,
            hold_timer: self.hold_timer,
            pdu_len: self.pdu_len,
            priority: self.priority,
            lan_id: self.lan_id.id@,
            tlvs: views(self.tlvs@),
        }
    }
}

pub open spec fn hello_bytes(h: HelloModel) -> Seq<u8> {
    seq![h.circuit_type] + h.source_id + u16_bytes(h.hold_timer) + u16_bytes(h.pdu_len) + seq![
        h.priority,
    ] + h.lan_id + many_bytes::<IsisTlv>(h.tlvs)
}

pub open spec fn hello_wf(h: HelloModel) -> bool {
    h.source_id.len() == 6 && h.lan_id.len() == 7 && wf_many::<IsisTlv>(h.tlvs)
}

/// Can be written out: every TLV fits its length byte.
pub open spec fn hello_fits(h: HelloModel) -> bool {
    h.source_id.len() == 6 && h.lan_id.len() == 7 && fits_many::<IsisTlv>(h.tlvs)
}

pub open spec fn hello_with_len(h: HelloModel, l: u16) -> HelloModel {
    HelloModel { pdu_len: l, ..h }
}

pub open spec fn spec_parse_hello(s: Seq<u8>) -> Result<HelloModel, ParseError> {
    if s.len() < 19 {
        Err(ParseError::Incomplete)
    } else {
        match parse_many::<IsisTlv>(s.subrange(19, s.len() as int)) {
            Ok(tlvs) => Ok(
                HelloModel {
                    circuit_type: s[0],
                    source_id: s.subrange(1, 7),
                    hold_timer: be16(s, 7),
                    pdu_len: be16(s, 9),
                    priority: s[11],
                    lan_id: s.subrange(12, 19),
                    tlvs,
                },
            ),
            Err(e) => Err(e),
        }
    }
}

#[verifier::spinoff_prover]
#[verifier::rlimit(60)]
proof fn lemma_hello_round_trip(h: HelloModel)
    requires
        hello_wf(h),
    ensures
        spec_parse_hello(hello_bytes(h)) == Ok::<HelloModel, ParseError>(h),
        hello_bytes(h).len() == 19 + many_bytes::<IsisTlv>(h.tlvs).len(),
{
    let s = hello_bytes(h);
    assert(s.subrange(1, 7) =~= h.source_id);
    assert(s.subrange(7, 9) =~= u16_bytes(h.hold_timer));
    lemma_be16(h.hold_timer, s, 7);
    assert(s.subrange(9, 11) =~= u16_bytes(h.pdu_len));
    lemma_be16(h.pdu_len, s, 9);
    assert(s.subrange(12, 19) =~= h.lan_id);
    assert(s.subrange(19, s.len() as int) =~= many_bytes::<IsisTlv>(h.tlvs));
    lemma_many_round_trip::<IsisTlv>(h.tlvs);
}

impl IsisHello {
    pub fn parse_be(input: &[u8]) -> (r: Result<IsisHello, ParseError>)
        ensures
            match r {
                Ok(h) => spec_parse_hello(input@) == Ok::<HelloModel, ParseError>(h@),
                Err(e) => spec_parse_hello(input@) == Err::<HelloModel, ParseError>(e),
            },
    {
        if input.len() < 19 {
            return Err(ParseError::Incomplete);
        }
        match IsisTlv::parse_tlvs(vstd::slice::slice_subrange(input, 19, input.len())) {
            Ok(tlvs) => Ok(
                IsisHello {
                    circuit_type: input[0],
                    source_id: sys_id_at(input, 1),
                    hold_timer: read_u16(input, 7),
                    pdu_len: read_u16(input, 9),
                    priority: input[11],
                    lan_id: neighbor_id_at(input, 12),
                    tlvs,
                },
            ),
            Err(e) => Err(e),
        }
    }

    /// Writes the Hello; its length field receives the buffer's length at the end.
    pub fn emit(&self, buf: &mut BytesMut)
        requires
            hello_fits(self@),
            buf_bytes(*old(buf)).len() + hello_bytes(self@).len() <= isize::MAX,
        ensures
            buf_bytes(*final(buf)) == buf_bytes(*old(buf)) + hello_bytes(
                hello_with_len(
                    self@,
                    len_field(buf_bytes(*old(buf)).len() + hello_bytes(self@).len()),
                ),
            ),
    {
        let ghost b0 = buf_bytes(*buf);
        put_u8(buf, self.circuit_type);
        put_slice(buf, vstd::array::array_as_slice(&self.source_id.id));
        put_u16(buf, self.hold_timer);
        let pp = buf_len(buf);
        put_u16(buf, self.pdu_len);
        put_u8(buf, self.priority);
        put_slice(buf, vstd::array::array_as_slice(&self.lan_id.id));
        emit_many::<IsisTlv>(&self.tlvs, buf);
        assert(buf_bytes(*buf) =~= b0 + hello_bytes(self@));
        let l = len_field_exec(buf_len(buf));
        patch_u16(buf, pp, l);
        assert(buf_bytes(*buf) =~= b0 + hello_bytes(hello_with_len(self@, l)));
    }
}

// ---------------------------------------------------------------- LSP

#[derive(Debug, Clone, PartialEq, Eq, Default)]
pub struct IsisLsp {
    pub pdu_len: u16,
    pub lifetime: u16,
    pub lsp_id: IsisLspId,
    pub seq_number: u32,
    pub checksum: u16,
    pub types: u8,
    pub tlvs: Vec<IsisTlv>,
}

pub struct LspModel {
    pub pdu_len: u16,
    pub lifetime: u16,
    pub lsp_id: Seq<u8>,
    pub seq_number: u32,
    pub checksum: u16,
    pub types: u8,
    pub tlvs: Seq<TlvModel>,
}

impl View for IsisLsp {
    type V = LspModel;

    open spec fn view(&self) -> LspModel {
        LspModel {
            pdu_len: self.pdu_len,
            lifetime: self.lifetime,
            lsp_id: self.lsp_id.id@,
            seq_number: self.seq_number,
            checksum: self.checksum,
            types: self.types,
            tlvs: views(self.tlvs@),
        }
    }
}

pub open spec fn lsp_bytes(l: LspModel) -> Seq<u8> {
    u16_bytes(l.pdu_len) + u16_bytes(l.lifetime) + l.lsp_id + u32_bytes(l.seq_number) + u16_bytes(
        l.checksum,
    ) + seq![l.types] + many_bytes::<IsisTlv>(l.tlvs)
}

pub open spec fn lsp_wf(l: LspModel) -> bool {
    l.lsp_id.len() == 8 && wf_many::<IsisTlv>(l.tlvs)
}

/// Can be written out: every TLV fits its length byte.
pub open spec fn lsp_fits(l: LspModel) -> bool {
    l.lsp_id.len() == 8 && fits_many::<IsisTlv>(l.tlvs)
}

pub open spec fn lsp_with_len(l: LspModel, n: u16) -> LspModel {
    LspModel { pdu_len: n, ..l }
}

pub open spec fn spec_parse_lsp(s: Seq<u8>) -> Result<LspModel, ParseError> {
    if s.len() < 19 {
        Err(ParseError::Incomplete)
    } else {
        match parse_many::<IsisTlv>(s.subrange(19, s.len() as int)) {
            Ok(tlvs) => Ok(
                LspModel {
                    pdu_len: be16(s, 0),
                    lifetime: be16(s, 2),
                    lsp_id: s.subrange(4, 12),
                    seq_number: be32(s, 12),
                    checksum: be16(s, 16),
                    types: s[18],
                    tlvs,
                },
            ),
            Err(e) => Err(e),
        }
    }
}

#[verifier::spinoff_prover]
#[verifier::rlimit(60)]
proof fn lemma_lsp_round_trip(l: LspModel)
    requires
        lsp_wf(l),
    ensures
        spec_parse_lsp(lsp_bytes(l)) == Ok::<LspModel, ParseError>(l),
        lsp_bytes(l).len() == 19 + many_bytes::<IsisTlv>(l.tlvs).len(),
{
    let s = lsp_bytes(l);
    assert(s.subrange(0, 2) =~= u16_bytes(l.pdu_len));
    lemma_be16(l.pdu_len, s, 0);
    assert(s.subrange(2, 4) =~= u16_bytes(l.lifetime));
    lemma_be16(l.lifetime, s, 2);
    assert(s.subrange(4, 12) =~= l.lsp_id);
    assert(s.subrange(12, 16) =~= u32_bytes(l.seq_number));
    lemma_be32(l.seq_number, s, 12);
    assert(s.subrange(16, 18) =~= u16_bytes(l.checksum));
    lemma_be16(l.checksum, s, 16);
    assert(s.subrange(19, s.len() as int) =~= many_bytes::<IsisTlv>(l.tlvs));
    lemma_many_round_trip::<IsisTlv>(l.tlvs);
}

impl IsisLsp {
    pub fn parse_be(input: &[u8]) -> (r: Result<IsisLsp, ParseError>)
        ensures
            match r {
                Ok(l) => spec_parse_lsp(input@) == Ok::<LspModel, ParseError>(l@),
                Err(e) => spec_parse_lsp(input@) == Err::<LspModel, ParseError>(e),
            },
    {
        if input.len() < 19 {
            return Err(ParseError::Incomplete);
        }
        match IsisTlv::parse_tlvs(vstd::slice::slice_subrange(input, 19, input.len())) {
            Ok(tlvs) => Ok(
                IsisLsp {
                    pdu_len: read_u16(input, 0),
                    lifetime: read_u16(input, 2),
                    lsp_id: lsp_id_at(input, 4),
                    seq_number: read_u32(input, 12),
                    checksum: read_u16(input, 16),
                    types: input[18],
                    tlvs,
                },
            ),
            Err(e) => Err(e),
        }
    }

    /// Writes the LSP; its length field receives the buffer's length at the end.
    pub fn emit(&self, buf: &mut BytesMut)
        requires
            lsp_fits(self@),
            buf_bytes(*old(buf)).len() + lsp_bytes(self@).len() <= isize::MAX,
        ensures
            buf_bytes(*final(buf)) == buf_bytes(*old(buf)) + lsp_bytes(
                lsp_with_len(self@, len_field(buf_bytes(*old(buf)).len() + lsp_bytes(self@).len())),
            ),
    {
        let ghost b0 = buf_bytes(*buf);
        let pp = buf_len(buf);
        put_u16(buf, self.pdu_len);
        put_u16(buf, self.lifetime);
        put_slice(buf, vstd::array::array_as_slice(&self.lsp_id.id));
        put_u32(buf, self.seq_number);
        put_u16(buf, self.checksum);
        put_u8(buf, self.types);
        emit_many::<IsisTlv>(&self.tlvs, buf);
        assert(buf_bytes(*buf) =~= b0 + lsp_bytes(self@));
        let l = len_field_exec(buf_len(buf));
        patch_u16(buf, pp, l);
        assert(buf_bytes(*buf) =~= b0 + lsp_bytes(lsp_with_len(self@, l)));
    }
}

// ---------------------------------------------------------------- CSNP

#[derive(Debug, Clone, PartialEq, Eq)]
pub struct IsisCsnp {
    pub pdu_len: u16,
    pub source_id: IsisSysId,
    pub source_id_curcuit: u8,
    pub start: IsisLspId,
    pub end: IsisLspId,
    pub tlvs: Vec<IsisTlv>,
}

pub struct CsnpModel {
    pub pdu_len: u16,
    pub source_id: Seq<u8>,
    pub source_id_curcuit: u8,
    pub start: Seq<u8>,
    pub end: Seq<u8>,
    pub tlvs: Seq<TlvModel>,
}

impl View for IsisCsnp {
    type V = CsnpModel;

    open spec fn view(&self) -> CsnpModel {
        CsnpModel {
            pdu_len: self.pdu_len,
            source_id: self.source_id.id@,
            source_id_curcuit: self.source_id_curcuit,
            start: self.start.id@,
            end: self.end.id@,
            tlvs: views(self.tlvs@),
        }
    }
}

pub open spec fn csnp_bytes(c: CsnpModel) -> Seq<u8> {
    u16_bytes(c.pdu_len) + c.source_id + seq![c.source_id_curcuit] + c.start + c.end + many_bytes::<
        IsisTlv,
    >(c.tlvs)
}

pub open spec fn csnp_wf(c: CsnpModel) -> bool {
    c.source_id.len() == 6 && c.start.len() == 8 && c.end.len() == 8 && wf_many::<IsisTlv>(c.tlvs)
}

/// Can be written out: every TLV fits its length byte.
pub open spec fn csnp_fits(c: CsnpModel) -> bool {
    c.source_id.len() == 6 && c.start.len() == 8 && c.end.len() == 8 && fits_many::<IsisTlv>(c.tlvs)
}

pub open spec fn csnp_with_len(c: CsnpModel, n: u16) -> CsnpModel {
    CsnpModel { pdu_len: n, ..c }
}

pub open spec fn spec_parse_csnp(s: Seq<u8>) -> Result<CsnpModel, ParseError> {
    if s.len() < 25 {
        Err(ParseError::Incomplete)
    } else {
        match parse_many::<IsisTlv>(s.subrange(25, s.len() as int)) {
            Ok(tlvs) => Ok(
                CsnpModel {
                    pdu_len: be16(s, 0),
                    source_id: s.subrange(2, 8),
                    source_id_curcuit: s[8],
                    start: s.subrange(9, 17),
                    end: s.subrange(17, 25),
                    tlvs,
                },
            ),
            Err(e) => Err(e),
        }
    }
}

#[verifier::spinoff_prover]
#[verifier::rlimit(60)]
proof fn lemma_csnp_round_trip(c: CsnpModel)
    requires
        csnp_wf(c),
    ensures
        spec_parse_csnp(csnp_bytes(c)) == Ok::<CsnpModel, ParseError>(c),
        csnp_bytes(c).len() == 25 + many_bytes::<IsisTlv>(c.tlvs).len(),
{
    let s = csnp_bytes(c);
    assert(s.subrange(0, 2) =~= u16_bytes(c.pdu_len));
    lemma_be16(c.pdu_len, s, 0);
    assert(s.subrange(2, 8) =~= c.source_id);
    assert(s.subrange(9, 17) =~= c.start);
    assert(s.subrange(17, 25) =~= c.end);
    assert(s.subrange(25, s.len() as int) =~= many_bytes::<IsisTlv>(c.tlvs));
    lemma_many_round_trip::<IsisTlv>(c.tlvs);
}

impl IsisCsnp {
    pub fn parse_be(input: &[u8]) -> (r: Result<IsisCsnp, ParseError>)
        ensures
            match r {
                Ok(c) => spec_parse_csnp(input@) == Ok::<CsnpModel, ParseError>(c@),
                Err(e) => spec_parse_csnp(input@) == Err::<CsnpModel, ParseError>(e),
            },
    {
        if input.len() < 25 {
            return Err(ParseError::Incomplete);
        }
        match IsisTlv::parse_tlvs(vstd::slice::slice_subrange(input, 25, input.len())) {
            Ok(tlvs) => Ok(
                IsisCsnp {
                    pdu_len: read_u16(input, 0),
                    source_id: sys_id_at(input, 2),
                    source_id_curcuit: input[8],
                    start: lsp_id_at(input, 9),
                    end: lsp_id_at(input, 17),
                    tlvs,
                },
            ),
            Err(e) => Err(e),
        }
    }

    /// Writes the CSNP; its length field receives the buffer's length at the end.
    pub fn emit(&self, buf: &mut BytesMut)
        requires
            csnp_fits(self@),
            buf_bytes(*old(buf)).len() + csnp_bytes(self@).len() <= isize::MAX,
        ensures
            buf_bytes(*final(buf)) == buf_bytes(*old(buf)) + csnp_bytes(
                csnp_with_len(
                    self@,
                    len_field(buf_bytes(*old(buf)).len() + csnp_bytes(self@).len()),
                ),
            ),
    {
        let ghost b0 = buf_bytes(*buf);
        let pp = buf_len(buf);
        put_u16(buf, self.pdu_len);
        put_slice(buf, vstd::array::array_as_slice(&self.source_id.id));
        put_u8(buf, self.source_id_curcuit);
        put_slice(buf, vstd::array::array_as_slice(&self.start.id));
        put_slice(buf, vstd::array::array_as_slice(&self.end.id));
        emit_many::<IsisTlv>(&self.tlvs, buf);
        assert(buf_bytes(*buf) =~= b0 + csnp_bytes(self@));
        let l = len_field_exec(buf_len(buf));
        patch_u16(buf, pp, l);
        assert(buf_bytes(*buf) =~= b0 + csnp_bytes(csnp_with_len(self@, l)));
    }
}

// ---------------------------------------------------------------- PSNP

#[derive(Debug, Clone, PartialEq, Eq)]
pub struct IsisPsnp {
    pub pdu_len: u16,
    pub source_id: IsisSysId,
    pub source_id_curcuit: u8,
    pub tlvs: Vec<IsisTlv>,
}

pub struct PsnpModel {
    pub pdu_len: u16,
    pub source_id: Seq<u8>,
    pub source_id_curcuit: u8,
    pub tlvs: Seq<TlvModel>,
}

impl View for IsisPsnp {
    type V = PsnpModel;

    open spec fn view(&self) -> PsnpModel {
        PsnpModel {
            pdu_len: self.pdu_len,
            source_id: self.source_id.id@,
            source_id_curcuit: self.source_id_curcuit,
            tlvs: views(self.tlvs@),
        }
    }
}

pub open spec fn psnp_bytes(p: PsnpModel) -> Seq<u8> {
    u16_bytes(p.pdu_len) + p.source_id + seq![p.source_id_curcuit] + many_bytes::<IsisTlv>(p.tlvs)
}

pub open spec fn psnp_wf(p: PsnpModel) -> bool {
    p.source_id.len() == 6 && wf_many::<IsisTlv>(p.tlvs)
}

/// Can be written out: every TLV fits its length byte.
pub open spec fn psnp_fits(p: PsnpModel) -> bool {
    p.source_id.len() == 6 && fits_many::<IsisTlv>(p.tlvs)
}

pub open spec fn psnp_with_len(p: PsnpModel, n: u16) -> PsnpModel {
    PsnpModel { pdu_len: n, ..p }
}

pub open spec fn spec_parse_psnp(s: Seq<u8>) -> Result<PsnpModel, ParseError> {
    if s.len() < 9 {
        Err(ParseError::Incomplete)
    } else {
        match parse_many::<IsisTlv>(s.subrange(9, s.len() as int)) {
            Ok(tlvs) => Ok(
                PsnpModel {
                    pdu_len: be16(s, 0),
                    source_id: s.subrange(2, 8),
                    source_id_curcuit: s[8],
                    tlvs,
                },
            ),
            Err(e) => Err(e),
        }
    }
}

#[verifier::spinoff_prover]
#[verifier::rlimit(60)]
proof fn lemma_psnp_round_trip(p: PsnpModel)
    requires
        psnp_wf(p),
    ensures
        spec_parse_psnp(psnp_bytes(p)) == Ok::<PsnpModel, ParseError>(p),
        psnp_bytes(p).len() == 9 + many_bytes::<IsisTlv>(p.tlvs).len(),
{
    let s = psnp_bytes(p);
    assert(s.subrange(0, 2) =~= u16_bytes(p.pdu_len));
    lemma_be16(p.pdu_len, s, 0);
    assert(s.subrange(2, 8) =~= p.source_id);
    assert(s.subrange(9, s.len() as int) =~= many_bytes::<IsisTlv>(p.tlvs));
    lemma_many_round_trip::<IsisTlv>(p.tlvs);
}

impl IsisPsnp {
    pub fn parse_be(input: &[u8]) -> (r: Result<IsisPsnp, ParseError>)
        ensures
            match r {
                Ok(p) => spec_parse_psnp(input@) == Ok::<PsnpModel, ParseError>(p@),
                Err(e) => spec_parse_psnp(input@) == Err::<PsnpModel, ParseError>(e),
            },
    {
        if input.len() < 9 {
            return Err(ParseError::Incomplete);
        }
        match IsisTlv::parse_tlvs(vstd::slice::slice_subrange(input, 9, input.len())) {
            Ok(tlvs) => Ok(
                IsisPsnp {
                    pdu_len: read_u16(input, 0),
                    source_id: sys_id_at(input, 2),
                    source_id_curcuit: input[8],
                    tlvs,
                },
            ),
            Err(e) => Err(e),
        }
    }

    /// Writes the PSNP; its length field receives the buffer's length at the end.
    pub fn emit(&self, buf: &mut BytesMut)
        requires
            psnp_fits(self@),
            buf_bytes(*old(buf)).len() + psnp_bytes(self@).len() <= isize::MAX,
        ensures
            buf_bytes(*final(buf)) == buf_bytes(*old(buf)) + psnp_bytes(
                psnp_with_len(
                    self@,
                    len_field(buf_bytes(*old(buf)).len() + psnp_bytes(self@).len()),
                ),
            ),
    {
        let ghost b0 = buf_bytes(*buf);
        let pp = buf_len(buf);
        put_u16(buf, self.pdu_len);
        put_slice(buf, vstd::array::array_as_slice(&self.source_id.id));
        put_u8(buf, self.source_id_curcuit);
        emit_many::<IsisTlv>(&self.tlvs, buf);
        assert(buf_bytes(*buf) =~= b0 + psnp_bytes(self@));
        let l = len_field_exec(buf_len(buf));
        patch_u16(buf, pp, l);
        assert(buf_bytes(*buf) =~= b0 + psnp_bytes(psnp_with_len(self@, l)));
    }
}

// ---------------------------------------------------------------- PDU

/// A PDU whose type this codec does not dissect: its type and all of its bytes.
#[derive(Debug, Clone, PartialEq, Eq)]
pub struct IsisUnknown {
    pub typ: IsisType,
    pub payload: Vec<u8>,
}

#[derive(Debug, Clone, PartialEq, Eq)]
pub enum IsisPdu {
    L1Hello(IsisHello),
    L2Hello(IsisHello),
    L1Lsp(IsisLsp),
    L2Lsp(IsisLsp),
    L1Csnp(IsisCsnp),
    L2Csnp(IsisCsnp),
    L1Psnp(IsisPsnp),
    L2Psnp(IsisPsnp),
    Unknown(IsisUnknown),
}

pub enum PduModel {
    L1Hello(HelloModel),
    L2Hello(HelloModel),
    L1Lsp(LspModel),
    L2Lsp(LspModel),
    L1Csnp(CsnpModel),
    L2Csnp(CsnpModel),
    L1Psnp(PsnpModel),
    L2Psnp(PsnpModel),
    Unknown(IsisType, Seq<u8>),
}

impl View for IsisPdu {
    type V = PduModel;

    open spec fn view(&self) -> PduModel {
        match self {
            IsisPdu::L1Hello(v) => PduModel::L1Hello(v@),
            IsisPdu::L2Hello(v) => PduModel::L2Hello(v@),
            IsisPdu::L1Lsp(v) => PduModel::L1Lsp(v@),
            IsisPdu::L2Lsp(v) => PduModel::L2Lsp(v@),
            IsisPdu::L1Csnp(v) => PduModel::L1Csnp(v@),
            IsisPdu::L2Csnp(v) => PduModel::L2Csnp(v@),
            IsisPdu::L1Psnp(v) => PduModel::L1Psnp(v@),
            IsisPdu::L2Psnp(v) => PduModel::L2Psnp(v@),
            IsisPdu::Unknown(v) => PduModel::Unknown(v.typ, v.payload@),
        }
    }
}

/// The PDU types that have a body decoder.
pub open spec fn is_dissected(t: IsisType) -> bool {
    t is L1Hello || t is L2Hello || t is L1Lsp || t is L2Lsp || t is L1Csnp || t is L2Csnp
        || t is L1Psnp || t is L2Psnp
}

pub open spec fn pdu_bytes(p: PduModel) -> Seq<u8> {
    match p {
        PduModel::L1Hello(h) => hello_bytes(h),
        PduModel::L2Hello(h) => hello_bytes(h),
        PduModel::L1Lsp(l) => lsp_bytes(l),
        PduModel::L2Lsp(l) => lsp_bytes(l),
        PduModel::L1Csnp(c) => csnp_bytes(c),
        PduModel::L2Csnp(c) => csnp_bytes(c),
        PduModel::L1Psnp(q) => psnp_bytes(q),
        PduModel::L2Psnp(q) => psnp_bytes(q),
        PduModel::Unknown(_, payload) => payload,
    }
}

/// The PDU with its length field set to `n`; an unknown PDU has no length field.
pub open spec fn pdu_with_len(p: PduModel, n: u16) -> PduModel {
    match p {
        PduModel::L1Hello(h) => PduModel::L1Hello(hello_with_len(h, n)),
        PduModel::L2Hello(h) => PduModel::L2Hello(hello_with_len(h, n)),
        PduModel::L1Lsp(l) => PduModel::L1Lsp(lsp_with_len(l, n)),
        PduModel::L2Lsp(l) => PduModel::L2Lsp(lsp_with_len(l, n)),
        PduModel::L1Csnp(c) => PduModel::L1Csnp(csnp_with_len(c, n)),
        PduModel::L2Csnp(c) => PduModel::L2Csnp(csnp_with_len(c, n)),
        PduModel::L1Psnp(q) => PduModel::L1Psnp(psnp_with_len(q, n)),
        PduModel::L2Psnp(q) => PduModel::L2Psnp(psnp_with_len(q, n)),
        PduModel::Unknown(t, payload) => PduModel::Unknown(t, payload),
    }
}

/// The PDU type that the packet header must carry for this PDU.
pub open spec fn pdu_matches(t: IsisType, p: PduModel) -> bool {
    match p {
        PduModel::L1Hello(_) => t is L1Hello,
        PduModel::L2Hello(_) => t is L2Hello,
        PduModel::L1Lsp(_) => t is L1Lsp,
        PduModel::L2Lsp(_) => t is L2Lsp,
        PduModel::L1Csnp(_) => t is L1Csnp,
        PduModel::L2Csnp(_) => t is L2Csnp,
        PduModel::L1Psnp(_) => t is L1Psnp,
        PduModel::L2Psnp(_) => t is L2Psnp,
        PduModel::Unknown(ut, _) => ut == t && !is_dissected(t) && IsisType::spec_from_u8(
            t.spec_to_u8(),
        ) == t,
    }
}

pub open spec fn pdu_fits(p: PduModel) -> bool {
    match p {
        PduModel::L1Hello(h) => hello_fits(h),
        PduModel::L2Hello(h) => hello_fits(h),
        PduModel::L1Lsp(l) => lsp_fits(l),
        PduModel::L2Lsp(l) => lsp_fits(l),
        PduModel::L1Csnp(c) => csnp_fits(c),
        PduModel::L2Csnp(c) => csnp_fits(c),
        PduModel::L1Psnp(q) => psnp_fits(q),
        PduModel::L2Psnp(q) => psnp_fits(q),
        PduModel::Unknown(..) => true,
    }
}

pub open spec fn pdu_wf(p: PduModel) -> bool {
    match p {
        PduModel::L1Hello(h) => hello_wf(h),
        PduModel::L2Hello(h) => hello_wf(h),
        PduModel::L1Lsp(l) => lsp_wf(l),
        PduModel::L2Lsp(l) => lsp_wf(l),
        PduModel::L1Csnp(c) => csnp_wf(c),
        PduModel::L2Csnp(c) => csnp_wf(c),
        PduModel::L1Psnp(q) => psnp_wf(q),
        PduModel::L2Psnp(q) => psnp_wf(q),
        PduModel::Unknown(..) => true,
    }
}

/// Decodes a PDU body of type `t`; a type without a body decoder keeps all of `s`.
pub open spec fn spec_parse_pdu(s: Seq<u8>, t: IsisType) -> Result<PduModel, ParseError> {
    match t {
        IsisType::L1Hello => match spec_parse_hello(s) {
            Ok(h) => Ok(PduModel::L1Hello(h)),
            Err(e) => Err(e),
        },
        IsisType::L2Hello => match spec_parse_hello(s) {
            Ok(h) => Ok(PduModel::L2Hello(h)),
            Err(e) => Err(e),
        },
        IsisType::L1Lsp => match spec_parse_lsp(s) {
            Ok(l) => Ok(PduModel::L1Lsp(l)),
            Err(e) => Err(e),
        },
        IsisType::L2Lsp => match spec_parse_lsp(s) {
            Ok(l) => Ok(PduModel::L2Lsp(l)),
            Err(e) => Err(e),
        },
        IsisType::L1Csnp => match spec_parse_csnp(s) {
            Ok(c) => Ok(PduModel::L1Csnp(c)),
            Err(e) => Err(e),
        },
        IsisType::L2Csnp => match spec_parse_csnp(s) {
            Ok(c) => Ok(PduModel::L2Csnp(c)),
            Err(e) => Err(e),
        },
        IsisType::L1Psnp => match spec_parse_psnp(s) {
            Ok(q) => Ok(PduModel::L1Psnp(q)),
            Err(e) => Err(e),
        },
        IsisType::L2Psnp => match spec_parse_psnp(s) {
            Ok(q) => Ok(PduModel::L2Psnp(q)),
            Err(e) => Err(e),
        },
        _ => Ok(PduModel::Unknown(t, s)),
    }
}

#[verifier::spinoff_prover]
#[verifier::rlimit(60)]
proof fn lemma_pdu_round_trip(t: IsisType, p: PduModel)
    requires
        pdu_wf(p),
        pdu_matches(t, p),
    ensures
        spec_parse_pdu(pdu_bytes(p), t) == Ok::<PduModel, ParseError>(p),
{
    match p {
        PduModel::L1Hello(h) => lemma_hello_round_trip(h),
        PduModel::L2Hello(h) => lemma_hello_round_trip(h),
        PduModel::L1Lsp(l) => lemma_lsp_round_trip(l),
        PduModel::L2Lsp(l) => lemma_lsp_round_trip(l),
        PduModel::L1Csnp(c) => lemma_csnp_round_trip(c),
        PduModel::L2Csnp(c) => lemma_csnp_round_trip(c),
        PduModel::L1Psnp(q) => lemma_psnp_round_trip(q),
        PduModel::L2Psnp(q) => lemma_psnp_round_trip(q),
        PduModel::Unknown(..) => {},
    }
}

impl IsisPdu {
    pub open spec fn spec_fits(&self) -> bool {
        pdu_fits(self@)
    }

    /// Decodes all of `input` as the body of a PDU of type `pdu_type`.
    #[verifier::spinoff_prover]
    #[verifier::rlimit(60)]
    pub fn parse_be(input: &[u8], pdu_type: IsisType) -> (r: Result<IsisPdu, ParseError>)
        ensures
            match r {
                Ok(p) => spec_parse_pdu(input@, pdu_type) == Ok::<PduModel, ParseError>(p@),
                Err(e) => spec_parse_pdu(input@, pdu_type) == Err::<PduModel, ParseError>(e),
            },
    {
        match pdu_type {
            IsisType::L1Hello => match IsisHello::parse_be(input) {
                Ok(h) => Ok(IsisPdu::L1Hello(h)),
                Err(e) => Err(e),
            },
            IsisType::L2Hello => match IsisHello::parse_be(input) {
                Ok(h) => Ok(IsisPdu::L2Hello(h)),
                Err(e) => Err(e),
            },
            IsisType::L1Lsp => match IsisLsp::parse_be(input) {
                Ok(l) => Ok(IsisPdu::L1Lsp(l)),
                Err(e) => Err(e),
            },
            IsisType::L2Lsp => match IsisLsp::parse_be(input) {
                Ok(l) => Ok(IsisPdu::L2Lsp(l)),
                Err(e) => Err(e),
            },
            IsisType::L1Csnp => match IsisCsnp::parse_be(input) {
                Ok(c) => Ok(IsisPdu::L1Csnp(c)),
                Err(e) => Err(e),
            },
            IsisType::L2Csnp => match IsisCsnp::parse_be(input) {
                Ok(c) => Ok(IsisPdu::L2Csnp(c)),
                Err(e) => Err(e),
            },
            IsisType::L1Psnp => match IsisPsnp::parse_be(input) {
                Ok(q) => Ok(IsisPdu::L1Psnp(q)),
                Err(e) => Err(e),
            },
            IsisType::L2Psnp => match IsisPsnp::parse_be(input) {
                Ok(q) => Ok(IsisPdu::L2Psnp(q)),
                Err(e) => Err(e),
            },
            _ => Ok(
                IsisPdu::Unknown(
                    IsisUnknown { typ: pdu_type, payload: vstd::slice::slice_to_vec(input) },
                ),
            ),
        }
    }

    /// Writes the PDU body; a known PDU's length field receives the buffer's
    /// length at the end, an unknown PDU's payload is written as it is.
    #[verifier::spinoff_prover]
    #[verifier::rlimit(60)]
    pub fn emit(&self, buf: &mut BytesMut)
        requires
            self.spec_fits(),
            buf_bytes(*old(buf)).len() + pdu_bytes(self@).len() <= isize::MAX,
        ensures
            buf_bytes(*final(buf)) == buf_bytes(*old(buf)) + pdu_bytes(
                pdu_with_len(self@, len_field(buf_bytes(*old(buf)).len() + pdu_bytes(self@).len())),
            ),
    {
        match self {
            IsisPdu::L1Hello(v) => v.emit(buf),
            IsisPdu::L2Hello(v) => v.emit(buf),
            IsisPdu::L1Lsp(v) => v.emit(buf),
            IsisPdu::L2Lsp(v) => v.emit(buf),
            IsisPdu::L1Csnp(v) => v.emit(buf),
            IsisPdu::L2Csnp(v) => v.emit(buf),
            IsisPdu::L1Psnp(v) => v.emit(buf),
            IsisPdu::L2Psnp(v) => v.emit(buf),
            IsisPdu::Unknown(v) => put_slice(buf, v.payload.as_slice()),
        }
    }
}

// ---------------------------------------------------------------- Packet

#[derive(Debug, Clone, PartialEq, Eq)]
pub struct IsisPacket {
    pub discriminator: u8,
    pub length_indicator: u8,
    pub id_extension: u8,
    pub id_length: u8,
    pub pdu_type: IsisType,
    pub version: u8,
    pub resvd: u8,
    pub max_area_addr: u8,
    pub pdu: IsisPdu,
}

pub struct PacketModel {
    pub discriminator: u8,
    pub length_indicator: u8,
    pub id_extension: u8,
    pub id_length: u8,
    pub pdu_type: IsisType,
    pub version: u8,
    pub resvd: u8,
    pub max_area_addr: u8,
    pub pdu: PduModel,
}

impl View for IsisPacket {
    type V = PacketModel;

    open spec fn view(&self) -> PacketModel {
        PacketModel {
            discriminator: self.discriminator,
            length_indicator: self.length_indicator,
            id_extension: self.id_extension,
            id_length: self.id_length,
            pdu_type: self.pdu_type,
            version: self.version,
            resvd: self.resvd,
            max_area_addr: self.max_area_addr,
            pdu: self.pdu@,
        }
    }
}

pub open spec fn header_bytes(p: PacketModel) -> Seq<u8> {
    seq![
        p.discriminator,
        p.length_indicator,
        p.id_extension,
        p.id_length,
        p.pdu_type.spec_to_u8(),
        p.version,
        p.resvd,
        p.max_area_addr,
    ]
}

pub open spec fn packet_bytes(p: PacketModel) -> Seq<u8> {
    header_bytes(p) + pdu_bytes(p.pdu)
}

/// A packet that can be written and read back: it starts with the
/// discriminator and its header's PDU type selects its PDU.
pub open spec fn packet_wf(p: PacketModel) -> bool {
    p.discriminator == ISIS_IRDP_DISC && pdu_matches(p.pdu_type, p.pdu) && pdu_wf(p.pdu)
}

pub open spec fn packet_with_len(p: PacketModel, n: u16) -> PacketModel {
    PacketModel { pdu: pdu_with_len(p.pdu, n), ..p }
}

/// Decodes a whole packet: the discriminator is checked first, then the
/// rest of the fixed header, then the PDU body by its type.
pub open spec fn spec_parse_packet(s: Seq<u8>) -> Result<PacketModel, ParseError> {
    if s.len() < 1 {
        Err(ParseError::Incomplete)
    } else if s[0] != ISIS_IRDP_DISC {
        Err(ParseError::BadDiscriminator)
    } else if s.len() < 8 {
        Err(ParseError::Incomplete)
    } else {
        let t = IsisType::spec_from_u8(s[4]);
        match spec_parse_pdu(s.subrange(8, s.len() as int), t) {
            Ok(pdu) => Ok(
                PacketModel {
                    discriminator: s[0],
                    length_indicator: s[1],
                    id_extension: s[2],
                    id_length: s[3],
                    pdu_type: t,
                    version: s[5],
                    resvd: s[6],
                    max_area_addr: s[7],
                    pdu,
                },
            ),
            Err(e) => Err(e),
        }
    }
}

#[verifier::spinoff_prover]
#[verifier::rlimit(60)]
pub proof fn lemma_packet_bytes_round_trip(p: PacketModel)
    requires
        packet_wf(p),
    ensures
        spec_parse_packet(packet_bytes(p)) == Ok::<PacketModel, ParseError>(p),
{
    let s = packet_bytes(p);
    assert(s.subrange(8, s.len() as int) =~= pdu_bytes(p.pdu));
    lemma_pdu_round_trip(p.pdu_type, p.pdu);
    assert(IsisType::spec_from_u8(p.pdu_type.spec_to_u8()) == p.pdu_type);
}

/// The length indicator for a PDU type: the length of its fixed header.
pub fn length_indicator(pdu_type: IsisType) -> (r: u8)
    ensures
        r == length_indicator_spec(pdu_type),
{
    match pdu_type {
        IsisType::L1Hello => 27,
        IsisType::L2Hello => 27,
        IsisType::P2PHello => 27,
        IsisType::L1Lsp => 27,
        IsisType::L2Lsp => 27,
        IsisType::L1Csnp => 33,
        IsisType::L2Csnp => 33,
        IsisType::L1Psnp => 17,
        IsisType::L2Psnp => 17,
        _ => 27,
    }
}

impl IsisPacket {
    /// Can be written out: every TLV of its PDU fits its length byte.  The
    /// header is written as it stands, whatever its PDU type says.
    pub open spec fn spec_fits(&self) -> bool {
        pdu_fits(self@.pdu)
    }

    /// A packet of type `pdu_type` around `pdu`, with the usual header values.
    pub fn from(pdu_type: IsisType, pdu: IsisPdu) -> (r: IsisPacket)
        ensures
            r.discriminator == ISIS_IRDP_DISC,
            r.length_indicator == length_indicator_spec(pdu_type),
            r.id_extension == 1,
            r.id_length == 0,
            r.pdu_type == pdu_type,
            r.version == 1,
            r.resvd == 0,
            r.max_area_addr == 0,
            r.pdu == pdu,
    {
        IsisPacket {
            discriminator: ISIS_IRDP_DISC,
            length_indicator: length_indicator(pdu_type),
            id_extension: 1,
            id_length: 0,
            pdu_type,
            version: 1,
            resvd: 0,
            max_area_addr: 0,
            pdu,
        }
    }

    /// Writes the fixed header, then the PDU.
    pub fn emit(&self, buf: &mut BytesMut)
        requires
            self.spec_fits(),
            buf_bytes(*old(buf)).len() + packet_bytes(self@).len() <= isize::MAX,
        ensures
            buf_bytes(*final(buf)) == buf_bytes(*old(buf)) + packet_bytes(
                packet_with_len(
                    self@,
                    len_field(buf_bytes(*old(buf)).len() + packet_bytes(self@).len()),
                ),
            ),
    {
        let ghost b0 = buf_bytes(*buf);
        put_u8(buf, self.discriminator);
        put_u8(buf, self.length_indicator);
        put_u8(buf, self.id_extension);
        put_u8(buf, self.id_length);
        put_u8(buf, self.pdu_type.to_u8());
        put_u8(buf, self.version);
        put_u8(buf, self.resvd);
        put_u8(buf, self.max_area_addr);
        assert(buf_bytes(*buf) =~= b0 + header_bytes(self@));
        self.pdu.emit(buf);
        proof {
            let n = len_field(b0.len() + packet_bytes(self@).len());
            assert(header_bytes(packet_with_len(self@, n)) == header_bytes(self@));
        }
        assert(buf_bytes(*buf) =~= b0 + packet_bytes(
            packet_with_len(self@, len_field(b0.len() + packet_bytes(self@).len())),
        ));
    }
}

pub open spec fn length_indicator_spec(pdu_type: IsisType) -> u8 {
    if pdu_type is L1Csnp || pdu_type is L2Csnp {
        33u8
    } else if pdu_type is L1Psnp || pdu_type is L2Psnp {
        17u8
    } else {
        27u8
    }
}

/// Decodes a whole packet from `input`; returns it and the bytes it took,
/// which are all of `input`.
#[verifier::spinoff_prover]
#[verifier::rlimit(60)]
pub fn parse(input: &[u8]) -> (r: Result<(IsisPacket, usize), ParseError>)
    ensures
        match r {
            Ok((p, n)) => spec_parse_packet(input@) == Ok::<PacketModel, ParseError>(p@) && n
                == input@.len(),
            Err(e) => spec_parse_packet(input@) == Err::<PacketModel, ParseError>(e),
        },
{
    if input.len() < 1 {
        return Err(ParseError::Incomplete);
    }
    if input[0] != ISIS_IRDP_DISC {
        return Err(ParseError::BadDiscriminator);
    }
    if input.len() < 8 {
        return Err(ParseError::Incomplete);
    }
    let pdu_type = IsisType::from_u8(input[4]);
    match IsisPdu::parse_be(vstd::slice::slice_subrange(input, 8, input.len()), pdu_type) {
        Ok(pdu) => Ok(
            (
                IsisPacket {
                    discriminator: input[0],
                    length_indicator: input[1],
                    id_extension: input[2],
                    id_length: input[3],
                    pdu_type,
                    version: input[5],
                    resvd: input[6],
                    max_area_addr: input[7],
                    pdu,
                },
                input.len(),
            ),
        ),
        Err(e) => Err(e),
    }
}

} // verus!
