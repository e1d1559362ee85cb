//! Properties of the codec as a whole, stated over the models that the
//! decoders' and emitters' contracts use.

use vstd::prelude::*;
use crate::codes::{IsisCapCode, IsisNeighCode, IsisPrefixCode, IsisTlvType, IsisType};
use crate::packet::{
    header_bytes, is_dissected, ISIS_IRDP_DISC, len_field, lemma_packet_bytes_round_trip, packet_bytes, packet_wf,
    packet_with_len, pdu_bytes, pdu_with_len, spec_parse_packet, PacketModel, PduModel,
};
use crate::prefix::{lemma_prefix_round_trip, prefix_bytes, prefix_wf, spec_psize, spec_ptake, PrefixModel};
use crate::record::{lemma_many_round_trip, many_bytes, parse_many, wf_many, Record};
use crate::tlv::{IsisTlv, TlvModel};
use crate::tlv_frame::{lemma_split_tlv, lemma_split_tlv_truncated, tlv_bytes};
use crate::unknown::UnknownModel;
use crate::prefix::{IsisSubPrefixSid, PrefixSidFlags, PrefixSubModel};
use crate::sid::SidLabelValue;
use crate::wire::{u24_bytes, u32_bytes, ParseError};

verus! {

/// Decoding the bytes of any valid TLV gives the TLV back, and tells how many
/// bytes it took; what follows it is not touched.
pub proof fn lemma_tlv_round_trip(m: TlvModel, rest: Seq<u8>)
    requires
        <IsisTlv as Record>::spec_wf(m),
    ensures
        <IsisTlv as Record>::spec_parse(<IsisTlv as Record>::spec_bytes(m) + rest) == Ok::<
            (TlvModel, nat),
            ParseError,
        >((m, <IsisTlv as Record>::spec_bytes(m).len())),
{
    <IsisTlv as Record>::lemma_round_trip(m, rest);
}

/// Decoding the bytes of a list of valid TLVs gives the list back.
pub proof fn lemma_tlvs_round_trip(ms: Seq<TlvModel>)
    requires
        wf_many::<IsisTlv>(ms),
    ensures
        parse_many::<IsisTlv>(many_bytes::<IsisTlv>(ms)) == Ok::<Seq<TlvModel>, ParseError>(ms),
{
    lemma_many_round_trip::<IsisTlv>(ms);
}

/// Decoding the bytes of any valid sub-TLV, in each of the three namespaces,
/// gives the sub-TLV back.
pub proof fn lemma_sub_tlv_round_trip(
    n: crate::neigh::NeighSubModel,
    p: crate::prefix::PrefixSubModel,
    c: crate::cap::CapSubModel,
    rest: Seq<u8>,
)
    requires
        <crate::neigh::IsisSubTlv as Record>::spec_wf(n),
        <crate::prefix::IsisSubTlv as Record>::spec_wf(p),
        <crate::cap::IsisSubTlv as Record>::spec_wf(c),
    ensures
        <crate::neigh::IsisSubTlv as Record>::spec_parse(
            <crate::neigh::IsisSubTlv as Record>::spec_bytes(n) + rest,
        ) == Ok::<(crate::neigh::NeighSubModel, nat), ParseError>(
            (n, <crate::neigh::IsisSubTlv as Record>::spec_bytes(n).len()),
        ),
        <crate::prefix::IsisSubTlv as Record>::spec_parse(
            <crate::prefix::IsisSubTlv as Record>::spec_bytes(p) + rest,
        ) == Ok::<(crate::prefix::PrefixSubModel, nat), ParseError>(
            (p, <crate::prefix::IsisSubTlv as Record>::spec_bytes(p).len()),
        ),
        <crate::cap::IsisSubTlv as Record>::spec_parse(
            <crate::cap::IsisSubTlv as Record>::spec_bytes(c) + rest,
        ) == Ok::<(crate::cap::CapSubModel, nat), ParseError>(
            (c, <crate::cap::IsisSubTlv as Record>::spec_bytes(c).len()),
        ),
{
    <crate::neigh::IsisSubTlv as Record>::lemma_round_trip(n, rest);
    <crate::prefix::IsisSubTlv as Record>::lemma_round_trip(p, rest);
    <crate::cap::IsisSubTlv as Record>::lemma_round_trip(c, rest);
}

proof fn lemma_pdu_len_unchanged(p: PduModel, n: u16)
    ensures
        pdu_bytes(pdu_with_len(p, n)).len() == pdu_bytes(p).len(),
        !(p is Unknown) ==> pdu_len_of(pdu_with_len(p, n)) == n,
{
}

/// What `IsisPacket::emit` writes into an empty buffer decodes to the packet
/// it was given, with the PDU length field set to the number of bytes written.
#[verifier::spinoff_prover]
#[verifier::rlimit(60)]
pub proof fn lemma_packet_round_trip(p: PacketModel)
    requires
        packet_wf(p),
    ensures
        spec_parse_packet(packet_bytes(packet_with_len(p, len_field(packet_bytes(p).len()))))
            == Ok::<PacketModel, ParseError>(packet_with_len(p, len_field(packet_bytes(p).len()))),
{
    let q = packet_with_len(p, len_field(packet_bytes(p).len()));
    assert(packet_wf(q));
    lemma_packet_bytes_round_trip(q);
}

/// The PDU length field of a known PDU.
pub open spec fn pdu_len_of(p: PduModel) -> u16 {
    match p {
        PduModel::L1Hello(h) => h.pdu_len,
        PduModel::L2Hello(h) => h.pdu_len,
        PduModel::L1Lsp(l) => l.pdu_len,
        PduModel::L2Lsp(l) => l.pdu_len,
        PduModel::L1Csnp(c) => c.pdu_len,
        PduModel::L2Csnp(c) => c.pdu_len,
        PduModel::L1Psnp(q) => q.pdu_len,
        PduModel::L2Psnp(q) => q.pdu_len,
        PduModel::Unknown(..) => 0,
    }
}

/// The PDU length field that emission writes equals the number of bytes of
/// the whole encoded packet (and the decoder reads it back, by
/// `lemma_packet_round_trip`).
#[verifier::spinoff_prover]
pub proof fn lemma_packet_length_field(p: PacketModel)
    requires
        packet_wf(p),
        !(p.pdu is Unknown),
        packet_bytes(p).len() <= 65535,
    ensures
        ({
            let q = packet_with_len(p, len_field(packet_bytes(p).len()));
            pdu_len_of(q.pdu) as nat == packet_bytes(q).len()
        }),
{
    let total = packet_bytes(p).len();
    let n = len_field(total);
    let q = packet_with_len(p, n);
    lemma_pdu_len_unchanged(p.pdu, n);
    assert(total % 65536 == total);
    assert(n as nat == total);
    assert(header_bytes(q) == header_bytes(p));
    assert(packet_bytes(q).len() == total);
}

/// Every TLV and sub-TLV writes, as its length byte, the length of the value
/// that follows it.
pub proof fn lemma_tlv_length_field(m: TlvModel)
    requires
        <IsisTlv as Record>::spec_wf(m),
    ensures
        ({
            let b = <IsisTlv as Record>::spec_bytes(m);
            b[1] as nat == b.len() - 2
        }),
{
    <IsisTlv as Record>::lemma_round_trip(m, Seq::empty());
    let b = <IsisTlv as Record>::spec_bytes(m);
    assert(b + Seq::<u8>::empty() =~= b);
}

/// A TLV of a type outside the known set, with any value, is decoded as
/// unknown with its type, length and value kept, and encodes to the same bytes.
pub proof fn lemma_unknown_tlv_preserved(typ: u8, value: Seq<u8>, rest: Seq<u8>)
    requires
        !IsisTlvType::spec_from_u8(typ).spec_is_known(),
        value.len() <= 255,
    ensures
        ({
            let m = TlvModel::Unknown(UnknownModel { code: typ, len: value.len() as u8, data: value });
            &&& <IsisTlv as Record>::spec_parse(tlv_bytes(typ, value) + rest) == Ok::<
                (TlvModel, nat),
                ParseError,
            >((m, value.len() + 2))
            &&& <IsisTlv as Record>::spec_bytes(m) == tlv_bytes(typ, value)
        }),
{
    lemma_split_tlv(typ, value, rest);
}

/// The same for sub-TLVs: in each namespace, a code that the namespace does
/// not know is decoded as unknown with its bytes kept, and encodes to the
/// same bytes.
pub proof fn lemma_unknown_sub_tlv_preserved(code: u8, value: Seq<u8>, rest: Seq<u8>)
    requires
        value.len() <= 255,
    ensures
        ({
            let u = UnknownModel { code, len: value.len() as u8, data: value };
            &&& IsisNeighCode::spec_from_u8(code) is Unknown ==> {
                let m = crate::neigh::NeighSubModel::Unknown(u);
                &&& <crate::neigh::IsisSubTlv as Record>::spec_parse(tlv_bytes(code, value) + rest)
                    == Ok::<(crate::neigh::NeighSubModel, nat), ParseError>((m, value.len() + 2))
                &&& <crate::neigh::IsisSubTlv as Record>::spec_bytes(m) == tlv_bytes(code, value)
            }
            &&& IsisPrefixCode::spec_from_u8(code) is Unknown ==> {
                let m = crate::prefix::PrefixSubModel::Unknown(u);
                &&& <crate::prefix::IsisSubTlv as Record>::spec_parse(tlv_bytes(code, value) + rest)
                    == Ok::<(crate::prefix::PrefixSubModel, nat), ParseError>((m, value.len() + 2))
                &&& <crate::prefix::IsisSubTlv as Record>::spec_bytes(m) == tlv_bytes(code, value)
            }
            &&& IsisCapCode::spec_from_u8(code) is Unknown ==> {
                let m = crate::cap::CapSubModel::Unknown(u);
                &&& <crate::cap::IsisSubTlv as Record>::spec_parse(tlv_bytes(code, value) + rest)
                    == Ok::<(crate::cap::CapSubModel, nat), ParseError>((m, value.len() + 2))
                &&& <crate::cap::IsisSubTlv as Record>::spec_bytes(m) == tlv_bytes(code, value)
            }
        }),
{
    lemma_split_tlv(code, value, rest);
}

/// A prefix of `len` bits takes `ceil(len / 8)` bytes, and decoding the
/// bytes written for it gives back the same address and length.
pub proof fn lemma_prefix_codec(p: PrefixModel, width: nat, rest: Seq<u8>)
    requires
        width == 4 || width == 16,
        prefix_wf(p, width),
    ensures
        8 * spec_psize(p.len) >= p.len,
        8 * spec_psize(p.len) < p.len + 8,
        prefix_bytes(p).len() == spec_psize(p.len),
        spec_ptake(prefix_bytes(p) + rest, p.len, width) == Ok::<(PrefixModel, nat), ParseError>(
            (p, spec_psize(p.len)),
        ),
{
    lemma_prefix_round_trip(p, width, rest);
}

/// A TLV or sub-TLV whose declared length runs past the bytes that follow is
/// refused as incomplete, and so is any list that it starts.
pub proof fn lemma_truncated_tlv(s: Seq<u8>)
    requires
        s.len() >= 2,
        s[1] > s.len() - 2,
    ensures
        <IsisTlv as Record>::spec_parse(s) == Err::<(TlvModel, nat), ParseError>(ParseError::Incomplete),
        parse_many::<IsisTlv>(s) == Err::<Seq<TlvModel>, ParseError>(ParseError::Incomplete),
        parse_many::<crate::neigh::IsisSubTlv>(s) == Err::<
            Seq<crate::neigh::NeighSubModel>,
            ParseError,
        >(ParseError::Incomplete),
        parse_many::<crate::prefix::IsisSubTlv>(s) == Err::<
            Seq<crate::prefix::PrefixSubModel>,
            ParseError,
        >(ParseError::Incomplete),
        parse_many::<crate::cap::IsisSubTlv>(s) == Err::<Seq<crate::cap::CapSubModel>, ParseError>(
            ParseError::Incomplete,
        ),
{
    lemma_split_tlv_truncated(s);
}

/// A packet whose PDU type has no body decoder is decoded as an unknown PDU
/// that keeps the type and every byte after the header, and emission writes
/// the same bytes back.
#[verifier::spinoff_prover]
#[verifier::rlimit(60)]
pub proof fn lemma_unknown_pdu(s: Seq<u8>)
    requires
        s.len() >= 8,
        s[0] == ISIS_IRDP_DISC,
        !is_dissected(IsisType::spec_from_u8(s[4])),
    ensures
        ({
            let t = IsisType::spec_from_u8(s[4]);
            match spec_parse_packet(s) {
                Ok(p) => {
                    &&& p.pdu_type == t
                    &&& p.pdu == PduModel::Unknown(t, s.subrange(8, s.len() as int))
                    &&& packet_wf(p)
                    &&& packet_bytes(packet_with_len(p, len_field(packet_bytes(p).len()))) == s
                },
                Err(_) => false,
            }
        }),
{
    let t = IsisType::spec_from_u8(s[4]);
    crate::codes::lemma_pdu_type_u8(s[4]);
    assert(IsisType::spec_from_u8(t.spec_to_u8()) == t);
    let p = spec_parse_packet(s)->Ok_0;
    assert(packet_bytes(p) =~= s);
}

/// Every sub-TLV, in each namespace, writes as its length byte the length of
/// the value that follows it.
pub proof fn lemma_sub_tlv_length_field(
    n: crate::neigh::NeighSubModel,
    p: crate::prefix::PrefixSubModel,
    c: crate::cap::CapSubModel,
)
    requires
        <crate::neigh::IsisSubTlv as Record>::spec_wf(n),
        <crate::prefix::IsisSubTlv as Record>::spec_wf(p),
        <crate::cap::IsisSubTlv as Record>::spec_wf(c),
    ensures
        ({
            let b = <crate::neigh::IsisSubTlv as Record>::spec_bytes(n);
            b[1] as nat == b.len() - 2
        }),
        ({
            let b = <crate::prefix::IsisSubTlv as Record>::spec_bytes(p);
            b[1] as nat == b.len() - 2
        }),
        ({
            let b = <crate::cap::IsisSubTlv as Record>::spec_bytes(c);
            b[1] as nat == b.len() - 2
        }),
{
    crate::neigh::lemma_decode_neigh(n);
    crate::prefix::lemma_decode_prefix_sub(p);
    crate::cap::lemma_decode_cap_sub(c);
}

/// Every reachability entry that carries a sub-TLV block writes, as the
/// block's length byte, the number of bytes of the block that follow it, and
/// the entry's length is its fixed fields plus that block.
pub proof fn lemma_entry_length_fields(
    e: crate::neigh::IsReachEntryModel,
    e4: crate::prefix::Ipv4EntryModel,
    e6: crate::prefix::Ipv6EntryModel,
)
    requires
        <crate::neigh::IsisTlvExtIsReachEntry as Record>::spec_wf(e),
        <crate::prefix::IsisTlvExtIpReachEntry as Record>::spec_wf(e4),
        <crate::prefix::IsisTlvIpv6ReachEntry as Record>::spec_wf(e6),
    ensures
        ({
            let b = <crate::neigh::IsisTlvExtIsReachEntry as Record>::spec_bytes(e);
            b[10] as nat == b.len() - 11
        }),
        ({
            let b = <crate::prefix::IsisTlvExtIpReachEntry as Record>::spec_bytes(e4);
            let k = 5 + spec_psize(e4.prefix.len);
            &&& e4.flags.spec_sub_tlv() ==> b[k as int] as nat == b.len() - k - 1
            &&& !e4.flags.spec_sub_tlv() ==> b.len() == k
        }),
        ({
            let b = <crate::prefix::IsisTlvIpv6ReachEntry as Record>::spec_bytes(e6);
            let k = 6 + spec_psize(e6.prefix.len);
            &&& e6.flags.spec_sub_tlv() ==> b[k as int] as nat == b.len() - k - 1
            &&& !e6.flags.spec_sub_tlv() ==> b.len() == k
        }),
{
    lemma_prefix_round_trip(e4.prefix, 4, Seq::empty());
    lemma_prefix_round_trip(e6.prefix, 16, Seq::empty());
}

/// A Prefix-SID sub-TLV whose SID field has four bytes decodes to an index
/// with their 32-bit value, one whose field has three bytes to a label with
/// their 24-bit value; either encodes back to the same number of bytes.
pub proof fn lemma_prefix_sid_width(flags: u8, algo: u8, v: u32, rest: Seq<u8>)
    ensures
        ({
            let b = tlv_bytes(3, seq![flags, algo] + u32_bytes(v));
            let m = PrefixSubModel::PrefixSid(
                IsisSubPrefixSid { flags: PrefixSidFlags { bits: flags }, algo, sid: SidLabelValue::Index(v) },
            );
            &&& <crate::prefix::IsisSubTlv as Record>::spec_parse(b + rest) == Ok::<
                (PrefixSubModel, nat),
                ParseError,
            >((m, 8))
            &&& <crate::prefix::IsisSubTlv as Record>::spec_bytes(m) == b
        }),
        v < 0x1000000 ==> ({
            let b = tlv_bytes(3, seq![flags, algo] + u24_bytes(v));
            let m = PrefixSubModel::PrefixSid(
                IsisSubPrefixSid { flags: PrefixSidFlags { bits: flags }, algo, sid: SidLabelValue::Label(v) },
            );
            &&& <crate::prefix::IsisSubTlv as Record>::spec_parse(b + rest) == Ok::<
                (PrefixSubModel, nat),
                ParseError,
            >((m, 7))
            &&& <crate::prefix::IsisSubTlv as Record>::spec_bytes(m) == b
        }),
{
    let mi = PrefixSubModel::PrefixSid(
        IsisSubPrefixSid { flags: PrefixSidFlags { bits: flags }, algo, sid: SidLabelValue::Index(v) },
    );
    <crate::prefix::IsisSubTlv as Record>::lemma_round_trip(mi, rest);
    if v < 0x1000000 {
        let ml = PrefixSubModel::PrefixSid(
            IsisSubPrefixSid { flags: PrefixSidFlags { bits: flags }, algo, sid: SidLabelValue::Label(v) },
        );
        <crate::prefix::IsisSubTlv as Record>::lemma_round_trip(ml, rest);
    }
}

/// A TLV list that runs into a TLV whose declared length passes the end of
/// the input is refused as incomplete, however many whole TLVs come first.
pub proof fn lemma_truncated_tlv_list(ms: Seq<TlvModel>, s: Seq<u8>)
    requires
        wf_many::<IsisTlv>(ms),
        s.len() >= 2,
        s[1] > s.len() - 2,
    ensures
        parse_many::<IsisTlv>(many_bytes::<IsisTlv>(ms) + s) == Err::<Seq<TlvModel>, ParseError>(
            ParseError::Incomplete,
        ),
{
    crate::record::lemma_many_append::<IsisTlv>(ms, s);
    lemma_split_tlv_truncated(s);
}

/// A TLV's decoding depends only on the bytes its own length field covers:
/// whatever follows them, the same TLV comes out.
pub proof fn lemma_tlv_bounded(s: Seq<u8>, rest: Seq<u8>)
    requires
        <IsisTlv as Record>::spec_parse(s) is Ok,
    ensures
        ({
            let n = <IsisTlv as Record>::spec_parse(s)->Ok_0.1;
            <IsisTlv as Record>::spec_parse(s.subrange(0, n as int) + rest)
                == <IsisTlv as Record>::spec_parse(s)
        }),
{
    let n = (2 + s[1]) as int;
    let t = s.subrange(0, n) + rest;
    assert(t.subrange(2, 2 + t[1] as int) =~= s.subrange(2, 2 + s[1] as int));
}

/// The width of a dissected PDU's fixed header, before its TLVs.
pub open spec fn pdu_fixed_len(t: IsisType) -> nat {
    if t is L1Hello || t is L2Hello || t is L1Lsp || t is L2Lsp {
        19
    } else if t is L1Csnp || t is L2Csnp {
        25
    } else {
        9
    }
}

/// The TLVs of a known PDU.
pub open spec fn pdu_tlvs(p: PduModel) -> Seq<TlvModel> {
    match p {
        PduModel::L1Hello(h) => h.tlvs,
        PduModel::L2Hello(h) => h.tlvs,
        PduModel::L1Lsp(l) => l.tlvs,
        PduModel::L2Lsp(l) => l.tlvs,
        PduModel::L1Csnp(c) => c.tlvs,
        PduModel::L2Csnp(c) => c.tlvs,
        PduModel::L1Psnp(q) => q.tlvs,
        PduModel::L2Psnp(q) => q.tlvs,
        PduModel::Unknown(..) => Seq::empty(),
    }
}

/// In a packet as emission writes it, the first eight bytes are the header
/// fields in order, the PDU's TLVs fill the bytes after its fixed header
/// (its length field is `lemma_packet_length_field`), and each TLV carries, as its length byte, the
/// length of its own value.
#[verifier::spinoff_prover]
#[verifier::rlimit(60)]
pub proof fn lemma_packet_nested_lengths(p: PacketModel)
    requires
        packet_wf(p),
        !(p.pdu is Unknown),
    ensures
        ({
            let q = packet_with_len(p, len_field(packet_bytes(p).len()));
            let b = packet_bytes(q);
            let w = 8 + pdu_fixed_len(p.pdu_type);
            &&& b.subrange(0, 8) == header_bytes(p)
            &&& w <= b.len()
            &&& b.subrange(w as int, b.len() as int) == many_bytes::<IsisTlv>(pdu_tlvs(q.pdu))
            &&& pdu_tlvs(q.pdu) == pdu_tlvs(p.pdu)
            &&& forall|i: int|
                0 <= i < pdu_tlvs(p.pdu).len() ==> {
                    let t = #[trigger] <IsisTlv as Record>::spec_bytes(pdu_tlvs(p.pdu)[i]);
                    t[1] as nat == t.len() - 2
                }
        }),
{
    let q = packet_with_len(p, len_field(packet_bytes(p).len()));
    let b = packet_bytes(q);
    let w = 8 + pdu_fixed_len(p.pdu_type);
    let tl = many_bytes::<IsisTlv>(pdu_tlvs(q.pdu));
    assert(b.subrange(w as int, b.len() as int) =~= tl);
    assert(b.subrange(0, 8) =~= header_bytes(p));
    let ms = pdu_tlvs(p.pdu);
    assert(wf_many::<IsisTlv>(ms));
    assert forall|i: int| 0 <= i < ms.len() implies {
        let t = #[trigger] <IsisTlv as Record>::spec_bytes(ms[i]);
        t[1] as nat == t.len() - 2
    } by {
        assert(<IsisTlv as Record>::spec_wf(ms[i]));
        lemma_tlv_length_field(ms[i]);
    }
}

/// A packet with a valid header and a complete fixed PDU header, whose TLV
/// area runs into a TLV that declares more bytes than follow it, is refused
/// as incomplete.
#[verifier::spinoff_prover]
#[verifier::rlimit(60)]
pub proof fn lemma_truncated_packet(s: Seq<u8>, ms: Seq<TlvModel>, tr: Seq<u8>)
    requires
        s.len() >= 8,
        s[0] == ISIS_IRDP_DISC,
        is_dissected(IsisType::spec_from_u8(s[4])),
        s.len() >= 8 + pdu_fixed_len(IsisType::spec_from_u8(s[4])),
        s.subrange(8 + pdu_fixed_len(IsisType::spec_from_u8(s[4])) as int, s.len() as int)
            == many_bytes::<IsisTlv>(ms) + tr,
        wf_many::<IsisTlv>(ms),
        tr.len() >= 2,
        tr[1] > tr.len() - 2,
    ensures
        spec_parse_packet(s) == Err::<PacketModel, ParseError>(ParseError::Incomplete),
{
    lemma_truncated_tlv_list(ms, tr);
    let t = IsisType::spec_from_u8(s[4]);
    let w = pdu_fixed_len(t) as int;
    let body = s.subrange(8, s.len() as int);
    assert(body.subrange(w, body.len() as int) =~= many_bytes::<IsisTlv>(ms) + tr);
}

} // verus!
