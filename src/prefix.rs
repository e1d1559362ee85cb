//! IP reachability: prefix entries, the variable-length prefix codec, and the
//! prefix sub-TLV namespace.

use vstd::prelude::*;
use bytes::BytesMut;
use crate::buf::{buf_bytes, put_slice, put_u8};
use crate::codes::IsisPrefixCode;
use crate::record::{
    emit_many, lemma_many_round_trip, many_bytes, many_len, parse_many, many0, views,
    wf_many, fits_many, lemma_wf_fits_many, Record,
};
use crate::sid::{lemma_sid_round_trip, spec_decode_sid, SidLabelValue};
use crate::tlv_frame::{lemma_split_tlv, spec_split_tlv, split_tlv, tlv_bytes};
use crate::unknown::{unknown_wf, IsisSubTlvUnknown, UnknownModel};
use crate::wire::{
    be16, be32, lemma_be32, put_u16, put_u32, read_u16, read_u32, u16_bytes,
    u32_bytes, ParseError,
};

verus! {

/// The flags byte of a prefix SID; bits 0 and 1 are reserved.
#[derive(Debug, Clone, Copy, PartialEq, Eq, Default)]
pub struct PrefixSidFlags {
    pub bits: u8,
}

impl PrefixSidFlags {
    pub fn l_flag(&self) -> (r: bool)
        ensures
            r == ((self.bits / 4) % 2 == 1),
    {
        (self.bits / 4) % 2 == 1
    }

    pub fn v_flag(&self) -> (r: bool)
        ensures
            r == ((self.bits / 8) % 2 == 1),
    {
        (self.bits / 8) % 2 == 1
    }

    pub fn e_flag(&self) -> (r: bool)
        ensures
            r == ((self.bits / 16) % 2 == 1),
    {
        (self.bits / 16) % 2 == 1
    }

    pub fn p_flag(&self) -> (r: bool)
        ensures
            r == ((self.bits / 32) % 2 == 1),
    {
        (self.bits / 32) % 2 == 1
    }

    pub fn n_flag(&self) -> (r: bool)
        ensures
            r == ((self.bits / 64) % 2 == 1),
    {
        (self.bits / 64) % 2 == 1
    }

    pub fn r_flag(&self) -> (r: bool)
        ensures
            r == (self.bits >= 128),
    {
        self.bits >= 128
    }
}

#[derive(Debug, Clone, Copy, PartialEq, Eq)]
pub struct IsisSubPrefixSid {
    pub flags: PrefixSidFlags,
    pub algo: u8,
    pub sid: SidLabelValue,
}

#[derive(Debug, Clone, PartialEq, Eq)]
pub enum IsisSubTlv {
    PrefixSid(IsisSubPrefixSid),
    Unknown(IsisSubTlvUnknown),
}

pub enum PrefixSubModel {
    PrefixSid(IsisSubPrefixSid),
    Unknown(UnknownModel),
}

impl View for IsisSubTlv {
    type V = PrefixSubModel;

    open spec fn view(&self) -> PrefixSubModel {
        match self {
            IsisSubTlv::PrefixSid(v) => PrefixSubModel::PrefixSid(*v),
            IsisSubTlv::Unknown(v) => PrefixSubModel::Unknown(v@),
        }
    }
}

pub open spec fn prefix_sub_code(m: PrefixSubModel) -> u8 {
    match m {
        PrefixSubModel::PrefixSid(_) => 3,
        PrefixSubModel::Unknown(u) => u.code,
    }
}

pub open spec fn prefix_sub_value(m: PrefixSubModel) -> Seq<u8> {
    match m {
        PrefixSubModel::PrefixSid(v) => seq![v.flags.bits, v.algo] + v.sid.spec_bytes(),
        PrefixSubModel::Unknown(u) => u.data,
    }
}

pub open spec fn prefix_sub_wf(m: PrefixSubModel) -> bool {
    match m {
        PrefixSubModel::PrefixSid(v) => v.sid.spec_wf(),
        PrefixSubModel::Unknown(u) => unknown_wf(u) && IsisPrefixCode::spec_from_u8(
            u.code,
        ) is Unknown,
    }
}

/// A prefix sub-TLV that can be written out: its value fits a length byte.
pub open spec fn prefix_sub_fits(m: PrefixSubModel) -> bool {
    match m {
        PrefixSubModel::PrefixSid(_) => true,
        PrefixSubModel::Unknown(u) => u.data.len() <= 255,
    }
}

/// Decodes the value bytes `v` of a prefix sub-TLV with code `code`.
pub open spec fn spec_decode_prefix_sub(code: u8, v: Seq<u8>) -> Result<PrefixSubModel, ParseError> {
    match IsisPrefixCode::spec_from_u8(code) {
        IsisPrefixCode::PrefixSid => if v.len() < 2 {
            Err(ParseError::Incomplete)
        } else {
            match spec_decode_sid(v.subrange(2, v.len() as int)) {
                Ok(sid) => Ok(
                    PrefixSubModel::PrefixSid(
                        IsisSubPrefixSid { flags: PrefixSidFlags { bits: v[0] }, algo: v[1], sid },
                    ),
                ),
                Err(e) => Err(e),
            }
        },
        IsisPrefixCode::Unknown(_) => Ok(
            PrefixSubModel::Unknown(UnknownModel { code, len: v.len() as u8, data: v }),
        ),
    }
}

pub proof fn lemma_decode_prefix_sub(m: PrefixSubModel)
    requires
        prefix_sub_wf(m),
    ensures
        spec_decode_prefix_sub(prefix_sub_code(m), prefix_sub_value(m)) == Ok::<
            PrefixSubModel,
            ParseError,
        >(m),
        prefix_sub_value(m).len() <= 255,
{
    let v = prefix_sub_value(m);
    match m {
        PrefixSubModel::PrefixSid(x) => {
            lemma_sid_round_trip(x.sid);
            assert(v.subrange(2, v.len() as int) =~= x.sid.spec_bytes());
        },
        PrefixSubModel::Unknown(u) => {},
    }
}

impl IsisSubTlv {
    pub open spec fn spec_fits(&self) -> bool {
        prefix_sub_fits(self@)
    }

    /// Decodes the value bytes `v` of a sub-TLV with code `code`.
    pub fn decode_value(code: u8, v: &[u8]) -> (r: Result<IsisSubTlv, ParseError>)
        requires
            v@.len() <= 255,
        ensures
            match r {
                Ok(x) => spec_decode_prefix_sub(code, v@) == Ok::<PrefixSubModel, ParseError>(x@),
                Err(e) => spec_decode_prefix_sub(code, v@) == Err::<PrefixSubModel, ParseError>(e),
            },
    {
        match IsisPrefixCode::from_u8(code) {
            IsisPrefixCode::PrefixSid => {
                if v.len() < 2 {
                    return Err(ParseError::Incomplete);
                }
                let sid_bytes = vstd::slice::slice_subrange(v, 2, v.len());
                match SidLabelValue::parse_be(sid_bytes) {
                    Ok(sid) => Ok(
                        IsisSubTlv::PrefixSid(
                            IsisSubPrefixSid { flags: PrefixSidFlags { bits: v[0] }, algo: v[1], sid },
                        ),
                    ),
                    Err(e) => Err(e),
                }
            },
            IsisPrefixCode::Unknown(_) => Ok(IsisSubTlv::Unknown(IsisSubTlvUnknown::from_value(code, v))),
        }
    }

    /// Reads one sub-TLV from the front of `input`; returns it and the bytes it took.
    pub fn parse_subs(input: &[u8]) -> (r: Result<(IsisSubTlv, usize), ParseError>)
        ensures
            match r {
                Ok((x, n)) => Self::spec_parse(input@) == Ok::<(PrefixSubModel, nat), ParseError>(
                    (x@, n as nat),
                ) && 0 < n <= input@.len(),
                Err(e) => Self::spec_parse(input@) == Err::<(PrefixSubModel, nat), ParseError>(e),
            },
    {
        match split_tlv(input) {
            Err(e) => Err(e),
            Ok((code, v, n)) => match Self::decode_value(code, v) {
                Ok(x) => Ok((x, n)),
                Err(e) => Err(e),
            },
        }
    }

    pub fn code(&self) -> (r: u8)
        ensures
            r == prefix_sub_code(self@),
    {
        match self {
            IsisSubTlv::PrefixSid(_) => 3,
            IsisSubTlv::Unknown(v) => v.code,
        }
    }

    /// The length of the value, without the code and length bytes.
    pub fn len(&self) -> (r: u8)
        requires
            self.spec_fits(),
        ensures
            r as nat == prefix_sub_value(self@).len(),
    {
        match self {
            IsisSubTlv::PrefixSid(v) => 2 + v.sid.len(),
            IsisSubTlv::Unknown(v) => v.data.len() as u8,
        }
    }

    pub fn is_empty(&self) -> (r: bool)
        requires
            self.spec_fits(),
        ensures
            r == (prefix_sub_value(self@).len() == 0),
    {
        self.len() == 0
    }

    /// Writes the code, the length and the value.
    pub fn emit(&self, buf: &mut BytesMut)
        requires
            self.spec_fits(),
            buf_bytes(*old(buf)).len() + tlv_bytes(prefix_sub_code(self@), prefix_sub_value(self@)).len() <= isize::MAX,
        ensures
            buf_bytes(*final(buf)) == buf_bytes(*old(buf)) + tlv_bytes(
                prefix_sub_code(self@),
                prefix_sub_value(self@),
            ),
    {
        put_u8(buf, self.code());
        put_u8(buf, self.len());
        match self {
            IsisSubTlv::PrefixSid(v) => {
                put_u8(buf, v.flags.bits);
                put_u8(buf, v.algo);
                v.sid.emit(buf);
            },
            IsisSubTlv::Unknown(v) => v.emit(buf),
        }
        assert(buf_bytes(*buf) =~= buf_bytes(*old(buf)) + tlv_bytes(
            prefix_sub_code(self@),
            prefix_sub_value(self@),
        ));
    }
}

impl Record for IsisSubTlv {
    open spec fn spec_parse(s: Seq<u8>) -> Result<(PrefixSubModel, nat), ParseError> {
        match spec_split_tlv(s) {
            Err(e) => Err(e),
            Ok((code, v, n)) => match spec_decode_prefix_sub(code, v) {
                Ok(m) => Ok((m, n)),
                Err(e) => Err(e),
            },
        }
    }

    open spec fn spec_bytes(m: PrefixSubModel) -> Seq<u8> {
        tlv_bytes(prefix_sub_code(m), prefix_sub_value(m))
    }

    open spec fn spec_wf(m: PrefixSubModel) -> bool {
        prefix_sub_wf(m)
    }

    open spec fn spec_fits(m: PrefixSubModel) -> bool {
        prefix_sub_fits(m)
    }

    proof fn lemma_wf_fits(m: PrefixSubModel) {
    }

    proof fn lemma_round_trip(m: PrefixSubModel, rest: Seq<u8>) {
        lemma_decode_prefix_sub(m);
        lemma_split_tlv(prefix_sub_code(m), prefix_sub_value(m), rest);
    }

    fn parse(input: &[u8]) -> (r: Result<(Self, usize), ParseError>) {
        Self::parse_subs(input)
    }

    fn emit(&self, buf: &mut BytesMut) {
        IsisSubTlv::emit(self, buf)
    }

    fn wire_len(&self) -> (r: usize) {
        self.len() as usize + 2
    }
}

/// An IPv4 prefix: an address and the number of leading bits that count.
#[derive(Debug, Clone, Copy, PartialEq, Eq, Default)]
pub struct Ipv4Prefix {
    pub addr: [u8; 4],
    pub prefix_len: u8,
}

/// An IPv6 prefix: an address and the number of leading bits that count.
#[derive(Debug, Clone, Copy, PartialEq, Eq, Default)]
pub struct Ipv6Prefix {
    pub addr: [u8; 16],
    pub prefix_len: u8,
}

pub struct PrefixModel {
    pub addr: Seq<u8>,
    pub len: u8,
}

impl View for Ipv4Prefix {
    type V = PrefixModel;

    open spec fn view(&self) -> PrefixModel {
        PrefixModel { addr: self.addr@, len: self.prefix_len }
    }
}

impl View for Ipv6Prefix {
    type V = PrefixModel;

    open spec fn view(&self) -> PrefixModel {
        PrefixModel { addr: self.addr@, len: self.prefix_len }
    }
}

/// The number of address bytes a prefix of `plen` bits takes: `ceil(plen / 8)`.
pub open spec fn spec_psize(plen: u8) -> nat {
    ((plen + 7) / 8) as nat
}

/// A prefix of an address `width` bytes wide whose bytes past the prefix are zero.
pub open spec fn prefix_wf(p: PrefixModel, width: nat) -> bool {
    &&& p.addr.len() == width
    &&& p.len <= width * 8
    &&& forall|i: int| spec_psize(p.len) <= i < width ==> p.addr[i] == 0
}

/// A prefix that can be written out: an address `width` bytes wide and a
/// length that does not pass its end.
pub open spec fn prefix_fits(p: PrefixModel, width: nat) -> bool {
    p.addr.len() == width && p.len <= width * 8
}

pub proof fn lemma_psize_le(plen: u8, width: nat)
    requires
        plen <= width * 8,
    ensures
        spec_psize(plen) <= width,
{
    let k = spec_psize(plen);
    assert(k <= width) by (nonlinear_arith)
        requires
            k == ((plen + 7) / 8) as nat,
            plen <= width * 8,
    ;
}

/// The bytes that carry a prefix on the wire.
pub open spec fn prefix_bytes(p: PrefixModel) -> Seq<u8> {
    p.addr.subrange(0, spec_psize(p.len) as int)
}

/// Takes the address bytes of a `plen`-bit prefix from the front of `s` and
/// pads them with zeros to `width` bytes.
pub open spec fn spec_ptake(s: Seq<u8>, plen: u8, width: nat) -> Result<(PrefixModel, nat), ParseError> {
    if s.len() < spec_psize(plen) {
        Err(ParseError::Incomplete)
    } else if plen > width * 8 {
        Err(ParseError::Invalid)
    } else {
        Ok(
            (
                PrefixModel {
                    addr: Seq::new(width, |i: int| if i < spec_psize(plen) { s[i] } else { 0u8 }),
                    len: plen,
                },
                spec_psize(plen),
            ),
        )
    }
}

/// Writing a prefix and reading it back gives the same address and length.
pub proof fn lemma_prefix_round_trip(p: PrefixModel, width: nat, rest: Seq<u8>)
    requires
        prefix_wf(p, width),
    ensures
        spec_ptake(prefix_bytes(p) + rest, p.len, width) == Ok::<(PrefixModel, nat), ParseError>(
            (p, spec_psize(p.len)),
        ),
        prefix_bytes(p).len() == spec_psize(p.len),
        spec_psize(p.len) <= width,
{
    let k = spec_psize(p.len);
    assert(k <= width) by (nonlinear_arith)
        requires
            k == ((p.len + 7) / 8) as nat,
            p.len <= width * 8,
    ;
    let s = prefix_bytes(p) + rest;
    assert(Seq::new(width, |i: int| if i < k { s[i] } else { 0u8 }) =~= p.addr);
}

/// The number of address bytes a prefix of `plen` bits takes.
pub fn psize(plen: u8) -> (r: usize)
    ensures
        r as nat == spec_psize(plen),
{
    ((plen as usize + 7) / 8) as usize
}

/// Reads an IPv4 prefix of `prefixlen` bits from the front of `input`.
pub fn ptake(input: &[u8], prefixlen: u8) -> (r: Result<(Ipv4Prefix, usize), ParseError>)
    ensures
        match r {
            Ok((p, n)) => spec_ptake(input@, prefixlen, 4) == Ok::<(PrefixModel, nat), ParseError>(
                (p@, n as nat),
            ),
            Err(e) => spec_ptake(input@, prefixlen, 4) == Err::<(PrefixModel, nat), ParseError>(e),
        },
{
    let k = psize(prefixlen);
    if input.len() < k {
        return Err(ParseError::Incomplete);
    }
    if prefixlen > 32 {
        return Err(ParseError::Invalid);
    }
    let mut addr = [0u8; 4];
    let mut i: usize = 0;
    while i < k
        invariant
            k == spec_psize(prefixlen),
            k <= 4,
            k <= input@.len(),
            i <= k,
            addr@.len() == 4,
            forall|j: int| 0 <= j < i ==> addr@[j] == input@[j],
            forall|j: int| i <= j < 4 ==> addr@[j] == 0,
        decreases k - i,
    {
        addr[i] = input[i];
        i = i + 1;
    }
    assert(addr@ =~= Seq::new(4, |j: int| if j < spec_psize(prefixlen) { input@[j] } else { 0u8 }));
    Ok((Ipv4Prefix { addr, prefix_len: prefixlen }, k))
}

/// Reads an IPv6 prefix of `prefixlen` bits from the front of `input`.
pub fn ptakev6(input: &[u8], prefixlen: u8) -> (r: Result<(Ipv6Prefix, usize), ParseError>)
    ensures
        match r {
            Ok((p, n)) => spec_ptake(input@, prefixlen, 16) == Ok::<(PrefixModel, nat), ParseError>(
                (p@, n as nat),
            ),
            Err(e) => spec_ptake(input@, prefixlen, 16) == Err::<(PrefixModel, nat), ParseError>(e),
        },
{
    let k = psize(prefixlen);
    if input.len() < k {
        return Err(ParseError::Incomplete);
    }
    if prefixlen > 128 {
        return Err(ParseError::Invalid);
    }
    let mut addr = [0u8; 16];
    let mut i: usize = 0;
    while i < k
        invariant
            k == spec_psize(prefixlen),
            k <= 16,
            k <= input@.len(),
            i <= k,
            addr@.len() == 16,
            forall|j: int| 0 <= j < i ==> addr@[j] == input@[j],
            forall|j: int| i <= j < 16 ==> addr@[j] == 0,
        decreases k - i,
    {
        addr[i] = input[i];
        i = i + 1;
    }
    assert(addr@ =~= Seq::new(16, |j: int| if j < spec_psize(prefixlen) { input@[j] } else { 0u8 }));
    Ok((Ipv6Prefix { addr, prefix_len: prefixlen }, k))
}

/// Writes the address bytes that a prefix takes on the wire.
fn put_prefix(buf: &mut BytesMut, addr: &[u8], plen: u8)
    requires
        spec_psize(plen) <= addr@.len(),
        buf_bytes(*old(buf)).len() + addr@.subrange(0, spec_psize(plen) as int).len() <= isize::MAX,
    ensures
        buf_bytes(*final(buf)) == buf_bytes(*old(buf)) + addr@.subrange(0, spec_psize(plen) as int),
{
    let k = psize(plen);
    put_slice(buf, vstd::slice::slice_subrange(addr, 0, k));
}

/// The control byte of an IPv4 prefix entry: prefix length in bits 0 to 5,
/// sub-TLVs present in bit 6, distribution (up/down) in bit 7.
#[derive(Debug, Clone, Copy, PartialEq, Eq, Default)]
pub struct Ipv4ControlInfo {
    pub bits: u8,
}

impl Ipv4ControlInfo {
    pub open spec fn spec_prefixlen(self) -> u8 {
        self.bits % 64
    }

    pub open spec fn spec_sub_tlv(self) -> bool {
        (self.bits / 64) % 2 == 1
    }

    pub fn prefixlen(&self) -> (r: u8)
        ensures
            r == self.spec_prefixlen(),
    {
        self.bits % 64
    }

    pub fn sub_tlv(&self) -> (r: bool)
        ensures
            r == self.spec_sub_tlv(),
    {
        (self.bits / 64) % 2 == 1
    }

    pub fn distribution(&self) -> (r: bool)
        ensures
            r == (self.bits >= 128),
    {
        self.bits >= 128
    }
}

/// The control byte of an IPv6 prefix entry: bits 0 to 4 reserved, sub-TLVs
/// present in bit 5, external in bit 6, up/down in bit 7.
#[derive(Debug, Clone, Copy, PartialEq, Eq, Default)]
pub struct Ipv6ControlInfo {
    pub bits: u8,
}

impl Ipv6ControlInfo {
    pub open spec fn spec_sub_tlv(self) -> bool {
        (self.bits / 32) % 2 == 1
    }

    pub fn sub_tlv(&self) -> (r: bool)
        ensures
            r == self.spec_sub_tlv(),
    {
        (self.bits / 32) % 2 == 1
    }

    pub fn dist_internal(&self) -> (r: bool)
        ensures
            r == ((self.bits / 64) % 2 == 1),
    {
        (self.bits / 64) % 2 == 1
    }

    pub fn dist_up(&self) -> (r: bool)
        ensures
            r == (self.bits >= 128),
    {
        self.bits >= 128
    }
}

/// The two bytes before the entries of a multi-topology reachability TLV:
/// four reserved bits, then a 12-bit topology ID.
#[derive(Debug, Clone, Copy, PartialEq, Eq, Default)]
pub struct MultiTopologyId {
    pub bits: u16,
}

impl MultiTopologyId {
    pub fn id(&self) -> (r: u16)
        ensures
            r == self.bits / 16,
    {
        self.bits / 16
    }
}

/// One IPv4 prefix with its metric, control byte and sub-TLVs.
#[derive(Debug, Clone, PartialEq, Eq)]
pub struct IsisTlvExtIpReachEntry {
    pub metric: u32,
    pub flags: Ipv4ControlInfo,
    pub prefix: Ipv4Prefix,
    pub subs: Vec<IsisSubTlv>,
}

pub struct Ipv4EntryModel {
    pub metric: u32,
    pub flags: Ipv4ControlInfo,
    pub prefix: PrefixModel,
    pub subs: Seq<PrefixSubModel>,
}

impl View for IsisTlvExtIpReachEntry {
    type V = Ipv4EntryModel;

    open spec fn view(&self) -> Ipv4EntryModel {
        Ipv4EntryModel {
            metric: self.metric,
            flags: self.flags,
            prefix: self.prefix@,
            subs: views(self.subs@),
        }
    }
}

/// The sub-TLV block of a prefix entry: present exactly when the control byte says so.
pub open spec fn sub_block(present: bool, subs: Seq<PrefixSubModel>) -> Seq<u8> {
    if present {
        seq![many_bytes::<IsisSubTlv>(subs).len() as u8] + many_bytes::<IsisSubTlv>(subs)
    } else {
        Seq::empty()
    }
}

/// Reads the optional sub-TLV block at the front of `s`.
pub open spec fn spec_sub_block(s: Seq<u8>, present: bool) -> Result<(Seq<PrefixSubModel>, nat), ParseError> {
    if !present {
        Ok((Seq::empty(), 0))
    } else if s.len() < 1 {
        Err(ParseError::Incomplete)
    } else if s.len() - 1 < s[0] {
        Err(ParseError::Incomplete)
    } else {
        match parse_many::<IsisSubTlv>(s.subrange(1, 1 + s[0] as int)) {
            Ok(subs) => Ok((subs, (1 + s[0]) as nat)),
            Err(e) => Err(e),
        }
    }
}

pub open spec fn sub_block_fits(subs: Seq<PrefixSubModel>) -> bool {
    fits_many::<IsisSubTlv>(subs) && many_bytes::<IsisSubTlv>(subs).len() <= 255
}

pub open spec fn sub_block_wf(present: bool, subs: Seq<PrefixSubModel>) -> bool {
    &&& wf_many::<IsisSubTlv>(subs)
    &&& many_bytes::<IsisSubTlv>(subs).len() <= 255
    &&& (!present ==> subs.len() == 0)
}

proof fn lemma_sub_block_round_trip(present: bool, subs: Seq<PrefixSubModel>, rest: Seq<u8>)
    requires
        sub_block_wf(present, subs),
    ensures
        spec_sub_block(sub_block(present, subs) + rest, present) == Ok::<
            (Seq<PrefixSubModel>, nat),
            ParseError,
        >((subs, sub_block(present, subs).len())),
{
    if present {
        let sb = many_bytes::<IsisSubTlv>(subs);
        let s = sub_block(present, subs) + rest;
        assert(s[0] == sb.len() as u8);
        assert(s.subrange(1, 1 + sb.len() as int) =~= sb);
        lemma_many_round_trip::<IsisSubTlv>(subs);
    } else {
        assert(subs =~= Seq::<PrefixSubModel>::empty());
    }
}

fn parse_sub_block(input: &[u8], present: bool) -> (r: Result<(Vec<IsisSubTlv>, usize), ParseError>)
    ensures
        match r {
            Ok((v, n)) => spec_sub_block(input@, present) == Ok::<
                (Seq<PrefixSubModel>, nat),
                ParseError,
            >((views(v@), n as nat)) && n <= input@.len(),
            Err(e) => spec_sub_block(input@, present) == Err::<
                (Seq<PrefixSubModel>, nat),
                ParseError,
            >(e),
        },
{
    if !present {
        let v: Vec<IsisSubTlv> = Vec::new();
        assert(views(v@) =~= Seq::<PrefixSubModel>::empty());
        return Ok((v, 0));
    }
    if input.len() < 1 {
        return Err(ParseError::Incomplete);
    }
    let sublen = input[0] as usize;
    if input.len() - 1 < sublen {
        return Err(ParseError::Incomplete);
    }
    match many0::<IsisSubTlv>(vstd::slice::slice_subrange(input, 1, 1 + sublen)) {
        Ok(subs) => Ok((subs, 1 + sublen)),
        Err(e) => Err(e),
    }
}

fn emit_sub_block(buf: &mut BytesMut, present: bool, subs: &Vec<IsisSubTlv>)
    requires
        sub_block_fits(views(subs@)),
        buf_bytes(*old(buf)).len() + sub_block(present, views(subs@)).len() <= isize::MAX,
    ensures
        buf_bytes(*final(buf)) == buf_bytes(*old(buf)) + sub_block(present, views(subs@)),
{
    if present {
        put_u8(buf, many_len::<IsisSubTlv>(subs) as u8);
        emit_many::<IsisSubTlv>(subs, buf);
        assert(buf_bytes(*buf) =~= buf_bytes(*old(buf)) + sub_block(present, views(subs@)));
    } else {
        assert(buf_bytes(*buf) =~= buf_bytes(*old(buf)) + sub_block(present, views(subs@)));
    }
}

impl Record for IsisTlvExtIpReachEntry {
    /// Metric, control byte, the prefix bytes, then the sub-TLV block if announced.
    open spec fn spec_parse(s: Seq<u8>) -> Result<(Ipv4EntryModel, nat), ParseError> {
        if s.len() < 5 {
            Err(ParseError::Incomplete)
        } else {
            let flags = Ipv4ControlInfo { bits: s[4] };
            match spec_ptake(s.subrange(5, s.len() as int), flags.spec_prefixlen(), 4) {
                Err(e) => Err(e),
                Ok((prefix, k)) => match spec_sub_block(
                    s.subrange(5 + k as int, s.len() as int),
                    flags.spec_sub_tlv(),
                ) {
                    Err(e) => Err(e),
                    Ok((subs, b)) => Ok(
                        (Ipv4EntryModel { metric: be32(s, 0), flags, prefix, subs }, 5 + k + b),
                    ),
                },
            }
        }
    }

    open spec fn spec_bytes(m: Ipv4EntryModel) -> Seq<u8> {
        u32_bytes(m.metric) + seq![m.flags.bits] + prefix_bytes(m.prefix) + sub_block(
            m.flags.spec_sub_tlv(),
            m.subs,
        )
    }

    open spec fn spec_fits(m: Ipv4EntryModel) -> bool {
        prefix_fits(m.prefix, 4) && sub_block_fits(m.subs)
    }

    proof fn lemma_wf_fits(m: Ipv4EntryModel) {
        lemma_wf_fits_many::<IsisSubTlv>(m.subs);
    }

    open spec fn spec_wf(m: Ipv4EntryModel) -> bool {
        &&& prefix_wf(m.prefix, 4)
        &&& m.flags.spec_prefixlen() == m.prefix.len
        &&& sub_block_wf(m.flags.spec_sub_tlv(), m.subs)
    }

    proof fn lemma_round_trip(m: Ipv4EntryModel, rest: Seq<u8>) {
        let s = Self::spec_bytes(m) + rest;
        let pb = prefix_bytes(m.prefix);
        let blk = sub_block(m.flags.spec_sub_tlv(), m.subs);
        assert(s.subrange(0, 4) =~= u32_bytes(m.metric));
        lemma_be32(m.metric, s, 0);
        assert(s[4] == m.flags.bits);
        assert(s.subrange(5, s.len() as int) =~= pb + (blk + rest));
        lemma_prefix_round_trip(m.prefix, 4, blk + rest);
        assert(s.subrange(5 + pb.len() as int, s.len() as int) =~= blk + rest);
        lemma_sub_block_round_trip(m.flags.spec_sub_tlv(), m.subs, rest);
    }

    fn parse(input: &[u8]) -> (r: Result<(Self, usize), ParseError>) {
        IsisTlvExtIpReachEntry::parse_be(input)
    }

    fn emit(&self, buf: &mut BytesMut) {
        IsisTlvExtIpReachEntry::emit(self, buf)
    }

    fn wire_len(&self) -> (r: usize) {
        self.len() as usize
    }
}

impl IsisTlvExtIpReachEntry {
    pub open spec fn spec_fits(&self) -> bool {
        <IsisTlvExtIpReachEntry as Record>::spec_fits(self@)
    }

    /// Reads one entry from the front of `input`; returns it and the bytes it took.
    pub fn parse_be(input: &[u8]) -> (r: Result<(IsisTlvExtIpReachEntry, usize), ParseError>)
        ensures
            match r {
                Ok((x, n)) => <Self as Record>::spec_parse(input@) == Ok::<
                    (Ipv4EntryModel, nat),
                    ParseError,
                >((x@, n as nat)) && 0 < n <= input@.len(),
                Err(e) => <Self as Record>::spec_parse(input@) == Err::<
                    (Ipv4EntryModel, nat),
                    ParseError,
                >(e),
            },
    {
        if input.len() < 5 {
            return Err(ParseError::Incomplete);
        }
        let metric = read_u32(input, 0);
        let flags = Ipv4ControlInfo { bits: input[4] };
        let after_flags = vstd::slice::slice_subrange(input, 5, input.len());
        match ptake(after_flags, flags.prefixlen()) {
            Err(e) => Err(e),
            Ok((prefix, k)) => {
                let after_prefix = vstd::slice::slice_subrange(input, 5 + k, input.len());
                assert(after_prefix@ =~= input@.subrange(5 + k, input@.len() as int));
                match parse_sub_block(after_prefix, flags.sub_tlv()) {
                    Err(e) => Err(e),
                    Ok((subs, b)) => Ok(
                        (IsisTlvExtIpReachEntry { metric, flags, prefix, subs }, 5 + k + b),
                    ),
                }
            },
        }
    }

    /// The bytes of the sub-TLVs, without the block's length byte.
    pub fn sub_len(&self) -> (r: u8)
        requires
            self.spec_fits(),
        ensures
            r as nat == many_bytes::<IsisSubTlv>(self@.subs).len(),
    {
        many_len::<IsisSubTlv>(&self.subs) as u8
    }

    /// The bytes the whole entry takes.
    pub fn len(&self) -> (r: u16)
        requires
            self.spec_fits(),
        ensures
            r as nat == <Self as Record>::spec_bytes(self@).len(),
    {
        proof {
            lemma_psize_le(self.prefix.prefix_len, 4);
        }
        let base = 5 + psize(self.prefix.prefix_len) as u16;
        if self.flags.sub_tlv() {
            base + 1 + self.sub_len() as u16
        } else {
            base
        }
    }

    pub fn emit(&self, buf: &mut BytesMut)
        requires
            self.spec_fits(),
            buf_bytes(*old(buf)).len() + <Self as Record>::spec_bytes(self@).len() <= isize::MAX,
        ensures
            buf_bytes(*final(buf)) == buf_bytes(*old(buf)) + <Self as Record>::spec_bytes(self@),
    {
        proof {
            lemma_psize_le(self.prefix.prefix_len, 4);
        }
        put_u32(buf, self.metric);
        put_u8(buf, self.flags.bits);
        put_prefix(buf, vstd::array::array_as_slice(&self.prefix.addr), self.prefix.prefix_len);
        emit_sub_block(buf, self.flags.sub_tlv(), &self.subs);
        assert(buf_bytes(*buf) =~= buf_bytes(*old(buf)) + <Self as Record>::spec_bytes(self@));
    }
}

/// One IPv6 prefix with its metric, control byte and sub-TLVs.
#[derive(Debug, Clone, PartialEq, Eq)]
pub struct IsisTlvIpv6ReachEntry {
    pub metric: u32,
    pub flags: Ipv6ControlInfo,
    pub prefix: Ipv6Prefix,
    pub subs: Vec<IsisSubTlv>,
}

pub struct Ipv6EntryModel {
    pub metric: u32,
    pub flags: Ipv6ControlInfo,
    pub prefix: PrefixModel,
    pub subs: Seq<PrefixSubModel>,
}

impl View for IsisTlvIpv6ReachEntry {
    type V = Ipv6EntryModel;

    open spec fn view(&self) -> Ipv6EntryModel {
        Ipv6EntryModel {
            metric: self.metric,
            flags: self.flags,
            prefix: self.prefix@,
            subs: views(self.subs@),
        }
    }
}

impl Record for IsisTlvIpv6ReachEntry {
    /// Metric, control byte, prefix length, the prefix bytes, then the sub-TLV
    /// block if announced.
    open spec fn spec_parse(s: Seq<u8>) -> Result<(Ipv6EntryModel, nat), ParseError> {
        if s.len() < 6 {
            Err(ParseError::Incomplete)
        } else {
            let flags = Ipv6ControlInfo { bits: s[4] };
            match spec_ptake(s.subrange(6, s.len() as int), s[5], 16) {
                Err(e) => Err(e),
                Ok((prefix, k)) => match spec_sub_block(
                    s.subrange(6 + k as int, s.len() as int),
                    flags.spec_sub_tlv(),
                ) {
                    Err(e) => Err(e),
                    Ok((subs, b)) => Ok(
                        (Ipv6EntryModel { metric: be32(s, 0), flags, prefix, subs }, 6 + k + b),
                    ),
                },
            }
        }
    }

    open spec fn spec_bytes(m: Ipv6EntryModel) -> Seq<u8> {
        u32_bytes(m.metric) + seq![m.flags.bits, m.prefix.len] + prefix_bytes(m.prefix) + sub_block(
            m.flags.spec_sub_tlv(),
            m.subs,
        )
    }

    open spec fn spec_fits(m: Ipv6EntryModel) -> bool {
        prefix_fits(m.prefix, 16) && sub_block_fits(m.subs)
    }

    proof fn lemma_wf_fits(m: Ipv6EntryModel) {
        lemma_wf_fits_many::<IsisSubTlv>(m.subs);
    }

    open spec fn spec_wf(m: Ipv6EntryModel) -> bool {
        &&& prefix_wf(m.prefix, 16)
        &&& sub_block_wf(m.flags.spec_sub_tlv(), m.subs)
    }

    proof fn lemma_round_trip(m: Ipv6EntryModel, rest: Seq<u8>) {
        let s = Self::spec_bytes(m) + rest;
        let pb = prefix_bytes(m.prefix);
        let blk = sub_block(m.flags.spec_sub_tlv(), m.subs);
        assert(s.subrange(0, 4) =~= u32_bytes(m.metric));
        lemma_be32(m.metric, s, 0);
        assert(s[4] == m.flags.bits);
        assert(s[5] == m.prefix.len);
        assert(s.subrange(6, s.len() as int) =~= pb + (blk + rest));
        lemma_prefix_round_trip(m.prefix, 16, blk + rest);
        assert(s.subrange(6 + pb.len() as int, s.len() as int) =~= blk + rest);
        lemma_sub_block_round_trip(m.flags.spec_sub_tlv(), m.subs, rest);
    }

    fn parse(input: &[u8]) -> (r: Result<(Self, usize), ParseError>) {
        IsisTlvIpv6ReachEntry::parse_be(input)
    }

    fn emit(&self, buf: &mut BytesMut) {
        IsisTlvIpv6ReachEntry::emit(self, buf)
    }

    fn wire_len(&self) -> (r: usize) {
        self.len() as usize
    }
}

impl IsisTlvIpv6ReachEntry {
    pub open spec fn spec_fits(&self) -> bool {
        <IsisTlvIpv6ReachEntry as Record>::spec_fits(self@)
    }

    /// Reads one entry from the front of `input`; returns it and the bytes it took.
    pub fn parse_be(input: &[u8]) -> (r: Result<(IsisTlvIpv6ReachEntry, usize), ParseError>)
        ensures
            match r {
                Ok((x, n)) => <Self as Record>::spec_parse(input@) == Ok::<
                    (Ipv6EntryModel, nat),
                    ParseError,
                >((x@, n as nat)) && 0 < n <= input@.len(),
                Err(e) => <Self as Record>::spec_parse(input@) == Err::<
                    (Ipv6EntryModel, nat),
                    ParseError,
                >(e),
            },
    {
        if input.len() < 6 {
            return Err(ParseError::Incomplete);
        }
        let metric = read_u32(input, 0);
        let flags = Ipv6ControlInfo { bits: input[4] };
        let after_len = vstd::slice::slice_subrange(input, 6, input.len());
        match ptakev6(after_len, input[5]) {
            Err(e) => Err(e),
            Ok((prefix, k)) => {
                let after_prefix = vstd::slice::slice_subrange(input, 6 + k, input.len());
                assert(after_prefix@ =~= input@.subrange(6 + k, input@.len() as int));
                match parse_sub_block(after_prefix, flags.sub_tlv()) {
                    Err(e) => Err(e),
                    Ok((subs, b)) => Ok(
                        (IsisTlvIpv6ReachEntry { metric, flags, prefix, subs }, 6 + k + b),
                    ),
                }
            },
        }
    }

    /// The bytes of the sub-TLVs, without the block's length byte.
    pub fn sub_len(&self) -> (r: u8)
        requires
            self.spec_fits(),
        ensures
            r as nat == many_bytes::<IsisSubTlv>(self@.subs).len(),
    {
        many_len::<IsisSubTlv>(&self.subs) as u8
    }

    /// The bytes the whole entry takes.
    pub fn len(&self) -> (r: u16)
        requires
            self.spec_fits(),
        ensures
            r as nat == <Self as Record>::spec_bytes(self@).len(),
    {
        proof {
            lemma_psize_le(self.prefix.prefix_len, 16);
        }
        let base = 6 + psize(self.prefix.prefix_len) as u16;
        if self.flags.sub_tlv() {
            base + 1 + self.sub_len() as u16
        } else {
            base
        }
    }

    pub fn emit(&self, buf: &mut BytesMut)
        requires
            self.spec_fits(),
            buf_bytes(*old(buf)).len() + <Self as Record>::spec_bytes(self@).len() <= isize::MAX,
        ensures
            buf_bytes(*final(buf)) == buf_bytes(*old(buf)) + <Self as Record>::spec_bytes(self@),
    {
        proof {
            lemma_psize_le(self.prefix.prefix_len, 16);
        }
        put_u32(buf, self.metric);
        put_u8(buf, self.flags.bits);
        put_u8(buf, self.prefix.prefix_len);
        put_prefix(buf, vstd::array::array_as_slice(&self.prefix.addr), self.prefix.prefix_len);
        emit_sub_block(buf, self.flags.sub_tlv(), &self.subs);
        assert(buf_bytes(*buf) =~= buf_bytes(*old(buf)) + <Self as Record>::spec_bytes(self@));
    }
}

/// Extended IP reachability: a list of IPv4 prefix entries.
#[derive(Debug, Clone, PartialEq, Eq, Default)]
pub struct IsisTlvExtIpReach {
    pub entries: Vec<IsisTlvExtIpReachEntry>,
}

impl IsisTlvExtIpReach {
    pub open spec fn spec_entries(&self) -> Seq<Ipv4EntryModel> {
        views(self.entries@)
    }

    pub open spec fn spec_fits(&self) -> bool {
        fits_many::<IsisTlvExtIpReachEntry>(self.spec_entries())
            && many_bytes::<IsisTlvExtIpReachEntry>(self.spec_entries()).len() <= 255
    }

    /// Decodes the whole of `input` as back-to-back entries.
    pub fn parse_be(input: &[u8]) -> (r: Result<IsisTlvExtIpReach, ParseError>)
        ensures
            match r {
                Ok(x) => parse_many::<IsisTlvExtIpReachEntry>(input@) == Ok::<Seq<Ipv4EntryModel>, ParseError>(
                    x.spec_entries(),
                ),
                Err(e) => parse_many::<IsisTlvExtIpReachEntry>(input@) == Err::<Seq<Ipv4EntryModel>, ParseError>(e),
            },
    {
        match many0::<IsisTlvExtIpReachEntry>(input) {
            Ok(entries) => Ok(IsisTlvExtIpReach { entries }),
            Err(e) => Err(e),
        }
    }

    pub fn typ(&self) -> (r: u8)
        ensures
            r == 135,
    {
        135
    }

    /// The length of the value: the sum of the entries' lengths.
    pub fn len(&self) -> (r: u8)
        requires
            self.spec_fits(),
        ensures
            r as nat == many_bytes::<IsisTlvExtIpReachEntry>(self.spec_entries()).len(),
    {
        many_len::<IsisTlvExtIpReachEntry>(&self.entries) as u8
    }

    /// Writes the value: every entry in order.
    pub fn emit(&self, buf: &mut BytesMut)
        requires
            self.spec_fits(),
            buf_bytes(*old(buf)).len() + many_bytes::<IsisTlvExtIpReachEntry>(self.spec_entries()).len() <= isize::MAX,
        ensures
            buf_bytes(*final(buf)) == buf_bytes(*old(buf)) + many_bytes::<IsisTlvExtIpReachEntry>(
                self.spec_entries(),
            ),
    {
        emit_many::<IsisTlvExtIpReachEntry>(&self.entries, buf)
    }
}

/// Multi-topology IPv4 reachability: a topology ID, then IPv4 prefix entries.
#[derive(Debug, Clone, PartialEq, Eq, Default)]
pub struct IsisTlvMtIpReach {
    pub mt: MultiTopologyId,
    pub entries: Vec<IsisTlvExtIpReachEntry>,
}

impl IsisTlvMtIpReach {
    pub open spec fn spec_entries(&self) -> Seq<Ipv4EntryModel> {
        views(self.entries@)
    }

    pub open spec fn spec_fits(&self) -> bool {
        fits_many::<IsisTlvExtIpReachEntry>(self.spec_entries())
            && many_bytes::<IsisTlvExtIpReachEntry>(self.spec_entries()).len() <= 253
    }

    /// Decodes the whole of `input`: the topology, then back-to-back entries.
    pub fn parse_be(input: &[u8]) -> (r: Result<IsisTlvMtIpReach, ParseError>)
        ensures
            match r {
                Ok(x) => input@.len() >= 2 && x.mt.bits == be16(input@, 0) && parse_many::<
                    IsisTlvExtIpReachEntry,
                >(input@.subrange(2, input@.len() as int)) == Ok::<Seq<Ipv4EntryModel>, ParseError>(
                    x.spec_entries(),
                ),
                Err(e) => if input@.len() < 2 {
                    e == ParseError::Incomplete
                } else {
                    parse_many::<IsisTlvExtIpReachEntry>(input@.subrange(2, input@.len() as int)) == Err::<
                        Seq<Ipv4EntryModel>,
                        ParseError,
                    >(e)
                },
            },
    {
        if input.len() < 2 {
            return Err(ParseError::Incomplete);
        }
        let mt = MultiTopologyId { bits: read_u16(input, 0) };
        match many0::<IsisTlvExtIpReachEntry>(vstd::slice::slice_subrange(input, 2, input.len())) {
            Ok(entries) => Ok(IsisTlvMtIpReach { mt, entries }),
            Err(e) => Err(e),
        }
    }

    pub fn typ(&self) -> (r: u8)
        ensures
            r == 235,
    {
        235
    }

    /// The length of the value: the topology and the entries.
    pub fn len(&self) -> (r: u8)
        requires
            self.spec_fits(),
        ensures
            r as nat == 2 + many_bytes::<IsisTlvExtIpReachEntry>(self.spec_entries()).len(),
    {
        many_len::<IsisTlvExtIpReachEntry>(&self.entries) as u8 + 2
    }

    /// Writes the value: the topology, then every entry in order.
    pub fn emit(&self, buf: &mut BytesMut)
        requires
            self.spec_fits(),
            buf_bytes(*old(buf)).len() + (u16_bytes(self.mt.bits) + many_bytes::<IsisTlvExtIpReachEntry>(self.spec_entries())).len() <= isize::MAX,
        ensures
            buf_bytes(*final(buf)) == buf_bytes(*old(buf)) + u16_bytes(self.mt.bits) + many_bytes::<
                IsisTlvExtIpReachEntry,
            >(self.spec_entries()),
    {
        put_u16(buf, self.mt.bits);
        emit_many::<IsisTlvExtIpReachEntry>(&self.entries, buf);
        assert(buf_bytes(*buf) =~= buf_bytes(*old(buf)) + u16_bytes(self.mt.bits) + many_bytes::<
            IsisTlvExtIpReachEntry,
        >(self.spec_entries()));
    }
}

/// IPv6 reachability: a list of IPv6 prefix entries.
#[derive(Debug, Clone, PartialEq, Eq, Default)]
pub struct IsisTlvIpv6Reach {
    pub entries: Vec<IsisTlvIpv6ReachEntry>,
}

impl IsisTlvIpv6Reach {
    pub open spec fn spec_entries(&self) -> Seq<Ipv6EntryModel> {
        views(self.entries@)
    }

    pub open spec fn spec_fits(&self) -> bool {
        fits_many::<IsisTlvIpv6ReachEntry>(self.spec_entries())
            && many_bytes::<IsisTlvIpv6ReachEntry>(self.spec_entries()).len() <= 255
    }

    /// Decodes the whole of `input` as back-to-back entries.
    pub fn parse_be(input: &[u8]) -> (r: Result<IsisTlvIpv6Reach, ParseError>)
        ensures
            match r {
                Ok(x) => parse_many::<IsisTlvIpv6ReachEntry>(input@) == Ok::<Seq<Ipv6EntryModel>, ParseError>(
                    x.spec_entries(),
                ),
                Err(e) => parse_many::<IsisTlvIpv6ReachEntry>(input@) == Err::<Seq<Ipv6EntryModel>, ParseError>(e),
            },
    {
        match many0::<IsisTlvIpv6ReachEntry>(input) {
            Ok(entries) => Ok(IsisTlvIpv6Reach { entries }),
            Err(e) => Err(e),
        }
    }

    pub fn typ(&self) -> (r: u8)
        ensures
            r == 236,
    {
        236
    }

    /// The length of the value: the sum of the entries' lengths.
    pub fn len(&self) -> (r: u8)
        requires
            self.spec_fits(),
        ensures
            r as nat == many_bytes::<IsisTlvIpv6ReachEntry>(self.spec_entries()).len(),
    {
        many_len::<IsisTlvIpv6ReachEntry>(&self.entries) as u8
    }

    /// Writes the value: every entry in order.
    pub fn emit(&self, buf: &mut BytesMut)
        requires
            self.spec_fits(),
            buf_bytes(*old(buf)).len() + many_bytes::<IsisTlvIpv6ReachEntry>(self.spec_entries()).len() <= isize::MAX,
        ensures
            buf_bytes(*final(buf)) == buf_bytes(*old(buf)) + many_bytes::<IsisTlvIpv6ReachEntry>(
                self.spec_entries(),
            ),
    {
        emit_many::<IsisTlvIpv6ReachEntry>(&self.entries, buf)
    }
}

/// Multi-topology IPv6 reachability: a topology ID, then IPv6 prefix entries.
#[derive(Debug, Clone, PartialEq, Eq, Default)]
pub struct IsisTlvMtIpv6Reach {
    pub mt: MultiTopologyId,
    pub entries: Vec<IsisTlvIpv6ReachEntry>,
}

impl IsisTlvMtIpv6Reach {
    pub open spec fn spec_entries(&self) -> Seq<Ipv6EntryModel> {
        views(self.entries@)
    }

    pub open spec fn spec_fits(&self) -> bool {
        fits_many::<IsisTlvIpv6ReachEntry>(self.spec_entries())
            && many_bytes::<IsisTlvIpv6ReachEntry>(self.spec_entries()).len() <= 253
    }

    /// Decodes the whole of `input`: the topology, then back-to-back entries.
    pub fn parse_be(input: &[u8]) -> (r: Result<IsisTlvMtIpv6Reach, ParseError>)
        ensures
            match r {
                Ok(x) => input@.len() >= 2 && x.mt.bits == be16(input@, 0) && parse_many::<
                    IsisTlvIpv6ReachEntry,
                >(input@.subrange(2, input@.len() as int)) == Ok::<Seq<Ipv6EntryModel>, ParseError>(
                    x.spec_entries(),
                ),
                Err(e) => if input@.len() < 2 {
                    e == ParseError::Incomplete
                } else {
                    parse_many::<IsisTlvIpv6ReachEntry>(input@.subrange(2, input@.len() as int)) == Err::<
                        Seq<Ipv6EntryModel>,
                        ParseError,
                    >(e)
                },
            },
    {
        if input.len() < 2 {
            return Err(ParseError::Incomplete);
        }
        let mt = MultiTopologyId { bits: read_u16(input, 0) };
        match many0::<IsisTlvIpv6ReachEntry>(vstd::slice::slice_subrange(input, 2, input.len())) {
            Ok(entries) => Ok(IsisTlvMtIpv6Reach { mt, entries }),
            Err(e) => Err(e),
        }
    }

    pub fn typ(&self) -> (r: u8)
        ensures
            r == 237,
    {
        237
    }

    /// The length of the value: the topology and the entries.
    pub fn len(&self) -> (r: u8)
        requires
            self.spec_fits(),
        ensures
            r as nat == 2 + many_bytes::<IsisTlvIpv6ReachEntry>(self.spec_entries()).len(),
    {
        many_len::<IsisTlvIpv6ReachEntry>(&self.entries) as u8 + 2
    }

    /// Writes the value: the topology, then every entry in order.
    pub fn emit(&self, buf: &mut BytesMut)
        requires
            self.spec_fits(),
            buf_bytes(*old(buf)).len() + (u16_bytes(self.mt.bits) + many_bytes::<IsisTlvIpv6ReachEntry>(self.spec_entries())).len() <= isize::MAX,
        ensures
            buf_bytes(*final(buf)) == buf_bytes(*old(buf)) + u16_bytes(self.mt.bits) + many_bytes::<
                IsisTlvIpv6ReachEntry,
            >(self.spec_entries()),
    {
        put_u16(buf, self.mt.bits);
        emit_many::<IsisTlvIpv6ReachEntry>(&self.entries, buf);
        assert(buf_bytes(*buf) =~= buf_bytes(*old(buf)) + u16_bytes(self.mt.bits) + many_bytes::<
            IsisTlvIpv6ReachEntry,
        >(self.spec_entries()));
    }
}

} // verus!
