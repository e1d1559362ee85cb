use bytes::BytesMut;
use isis_packet::cap::{
    IsisSubNodeMaxSidDepth, IsisSubSegmentRoutingAlgo, IsisSubSegmentRoutingCap,
    IsisSubSegmentRoutingLB, IsisTlvRouterCap,
};
use isis_packet::codes::{IsisTlvType, IsisType};
use isis_packet::ident::{IsisLspId, IsisNeighborId, IsisSysId};
use isis_packet::neigh::{
    AdjSidFlags, IsisSubAdjSid, IsisSubIpv4IfAddr, IsisSubLanAdjSid, IsisTlvExtIsReach,
    IsisTlvExtIsReachEntry,
};
use isis_packet::packet::{
    length_indicator, parse, IsisCsnp, IsisHello, IsisLsp, IsisPacket, IsisPdu, IsisPsnp,
};
use isis_packet::prefix::{
    psize, ptake, ptakev6, IsisSubPrefixSid, IsisTlvExtIpReach, IsisTlvExtIpReachEntry,
    IsisTlvIpv6Reach, IsisTlvIpv6ReachEntry, IsisTlvMtIpReach, IsisTlvMtIpv6Reach, Ipv4ControlInfo, Ipv4Prefix,
    Ipv6ControlInfo, Ipv6Prefix, MultiTopologyId, PrefixSidFlags,
};
use isis_packet::sid::SidLabelValue;
use isis_packet::tlv::{
    nlpid_str, IsisLspEntry, IsisTlv, IsisTlvAreaAddr, IsisTlvHostname, IsisTlvIpv4IfAddr,
    IsisTlvIpv6GlobalIfAddr, IsisTlvIpv6IfAddr, IsisTlvIpv6TeRouterId, IsisTlvIsNeighbor, IsisTlvLspEntries, IsisTlvPadding,
    IsisTlvProtoSupported, IsisTlvTeRouterId, IsisTlvUnknown,
};
use isis_packet::unknown::IsisSubTlvUnknown;
use isis_packet::wire::{u32_u8_3, ParseError};
use isis_packet::{cap, neigh, prefix};

fn lsp_id() -> IsisLspId {
    IsisLspId { id: [0x01, 0x02, 0x03, 0x04, 0x05, 0x06, 0x00, 0x00] }
}

fn emit_packet(p: &IsisPacket) -> Vec<u8> {
    let mut buf = BytesMut::new();
    p.emit(&mut buf);
    buf.to_vec()
}

fn emit_tlv(t: &IsisTlv) -> Vec<u8> {
    let mut buf = BytesMut::new();
    t.emit(&mut buf);
    buf.to_vec()
}

fn scenario_lsp() -> IsisLsp {
    IsisLsp {
        pdu_len: 0,
        lifetime: 1200,
        lsp_id: lsp_id(),
        seq_number: 0x00000007,
        checksum: 0,
        types: 3,
        tlvs: vec![
            IsisTlv::AreaAddr(IsisTlvAreaAddr { area_addr: vec![0x49, 0x00, 0x01] }),
            IsisTlv::Hostname(IsisTlvHostname { hostname: "router1".to_string() }),
        ],
    }
}

#[test]
fn lsp_scenario_round_trip() {
    let pkt = IsisPacket::from(IsisType::L1Lsp, IsisPdu::L1Lsp(scenario_lsp()));
    let bytes = emit_packet(&pkt);
    assert_eq!(bytes.len(), 8 + 19 + 6 + 9);
    let (decoded, used) = parse(&bytes).unwrap();
    assert_eq!(used, bytes.len());
    match &decoded.pdu {
        IsisPdu::L1Lsp(lsp) => {
            assert_eq!(lsp.pdu_len as usize, bytes.len());
            assert_eq!(lsp.lifetime, 1200);
            assert_eq!(lsp.seq_number, 7);
            assert_eq!(lsp.lsp_id, lsp_id());
            match &lsp.tlvs[1] {
                IsisTlv::Hostname(h) => assert_eq!(h.hostname, "router1"),
                other => panic!("unexpected {:?}", other),
            }
            match &lsp.tlvs[0] {
                IsisTlv::AreaAddr(a) => assert_eq!(a.area_addr, vec![0x49, 0x00, 0x01]),
                other => panic!("unexpected {:?}", other),
            }
        }
        other => panic!("unexpected {:?}", other),
    }
    // Re-encoding the decoded packet gives the same bytes.
    assert_eq!(emit_packet(&decoded), bytes);
}

#[test]
fn lsp_header_bytes() {
    let pkt = IsisPacket::from(IsisType::L2Lsp, IsisPdu::L2Lsp(scenario_lsp()));
    let bytes = emit_packet(&pkt);
    assert_eq!(&bytes[..8], &[0x83, 27, 1, 0, 0x14, 1, 0, 0]);
    // Length, lifetime, LSP ID, sequence number, checksum, type bits.
    assert_eq!(&bytes[8..10], &[0x00, 42]);
    assert_eq!(&bytes[10..12], &[0x04, 0xb0]);
    assert_eq!(&bytes[12..20], &[1, 2, 3, 4, 5, 6, 0, 0]);
    assert_eq!(&bytes[20..24], &[0, 0, 0, 7]);
    assert_eq!(&bytes[24..27], &[0, 0, 3]);
    assert_eq!(&bytes[27..32], &[1, 4, 3, 0x49, 0x00]);
}

fn prefix_sid_bytes(sid: &[u8]) -> Vec<u8> {
    let mut v = vec![3u8, (2 + sid.len()) as u8, 0x40, 0];
    v.extend_from_slice(sid);
    v
}

#[test]
fn prefix_sid_index_and_label() {
    let four = prefix_sid_bytes(&[0, 0, 0x01, 0x00]);
    let (sub, used) = prefix::IsisSubTlv::parse_subs(&four).unwrap();
    assert_eq!(used, 8);
    match &sub {
        prefix::IsisSubTlv::PrefixSid(p) => {
            assert_eq!(p.sid, SidLabelValue::Index(256));
            assert!(p.flags.n_flag());
        }
        other => panic!("unexpected {:?}", other),
    }
    let mut buf = BytesMut::new();
    sub.emit(&mut buf);
    assert_eq!(buf.to_vec(), four);

    let three = prefix_sid_bytes(&[0x01, 0x86, 0xa0]);
    let (sub, used) = prefix::IsisSubTlv::parse_subs(&three).unwrap();
    assert_eq!(used, 7);
    match &sub {
        prefix::IsisSubTlv::PrefixSid(p) => assert_eq!(p.sid, SidLabelValue::Label(100000)),
        other => panic!("unexpected {:?}", other),
    }
    let mut buf = BytesMut::new();
    sub.emit(&mut buf);
    assert_eq!(buf.len(), three.len());
    assert_eq!(buf.to_vec(), three);
}

#[test]
fn prefix_sid_bad_length() {
    let five = prefix_sid_bytes(&[0, 0, 0, 0, 1]);
    assert_eq!(prefix::IsisSubTlv::parse_subs(&five), Err(ParseError::Invalid));
    assert_eq!(SidLabelValue::parse_be(&[1, 2]), Err(ParseError::Invalid));
}

#[test]
fn json_test() {
    let prefix = prefix::IsisSubPrefixSid {
        flags: PrefixSidFlags { bits: 0 },
        algo: 0,
        sid: SidLabelValue::Index(100),
    };
    let tlv = prefix::IsisSubTlv::PrefixSid(prefix);
    let mut buf = BytesMut::new();
    tlv.emit(&mut buf);
    assert_eq!(buf.to_vec(), vec![3, 6, 0, 0, 0, 0, 0, 100]);
    println!("{:?}", tlv);
}

#[test]
fn unknown_tlv_preserved() {
    let bytes = vec![250u8, 3, 7, 8, 9];
    let (tlv, used) = IsisTlv::parse_tlv(&bytes).unwrap();
    assert_eq!(used, 5);
    match &tlv {
        IsisTlv::Unknown(u) => {
            assert_eq!(u.typ, IsisTlvType::Unknown(250));
            assert_eq!(u.len, 3);
            assert_eq!(u.values, vec![7, 8, 9]);
        }
        other => panic!("unexpected {:?}", other),
    }
    assert_eq!(emit_tlv(&tlv), bytes);
    let fresh = IsisTlv::Unknown(IsisTlvUnknown {
        typ: IsisTlvType::Unknown(250),
        len: 3,
        values: vec![7, 8, 9],
    });
    assert_eq!(emit_tlv(&fresh), bytes);
}

#[test]
fn unknown_sub_tlvs_preserved() {
    let bytes = vec![99u8, 2, 0xaa, 0xbb];
    let (n, _) = neigh::IsisSubTlv::parse_subs(&bytes).unwrap();
    let (p, _) = prefix::IsisSubTlv::parse_subs(&bytes).unwrap();
    let (c, _) = cap::IsisSubTlv::parse_subs(&bytes).unwrap();
    let expect = IsisSubTlvUnknown { code: 99, len: 2, data: vec![0xaa, 0xbb] };
    assert_eq!(n, neigh::IsisSubTlv::Unknown(expect.clone()));
    assert_eq!(p, prefix::IsisSubTlv::Unknown(expect.clone()));
    assert_eq!(c, cap::IsisSubTlv::Unknown(expect));
    let mut buf = BytesMut::new();
    n.emit(&mut buf);
    p.emit(&mut buf);
    c.emit(&mut buf);
    assert_eq!(buf.to_vec(), [bytes.clone(), bytes.clone(), bytes].concat());
}

#[test]
fn same_code_differs_by_namespace() {
    // Code 3 is a prefix SID under a prefix entry and unknown elsewhere.
    let bytes = vec![3u8, 6, 0, 0, 0, 0, 0, 5];
    assert!(matches!(prefix::IsisSubTlv::parse_subs(&bytes), Ok((prefix::IsisSubTlv::PrefixSid(_), 8))));
    assert!(matches!(neigh::IsisSubTlv::parse_subs(&bytes), Ok((neigh::IsisSubTlv::Unknown(_), 8))));
    assert!(matches!(cap::IsisSubTlv::parse_subs(&bytes), Ok((cap::IsisSubTlv::Unknown(_), 8))));
}

#[test]
fn truncated_tlv_is_incomplete() {
    for n in 1u8..=40 {
        for have in 0..(n as usize) {
            let mut bytes = vec![137u8, n];
            bytes.extend(std::iter::repeat(b'a').take(have));
            assert_eq!(IsisTlv::parse_tlv(&bytes), Err(ParseError::Incomplete));
            assert_eq!(IsisTlv::parse_tlvs(&bytes), Err(ParseError::Incomplete));
            assert_eq!(neigh::IsisSubTlv::parse_subs(&bytes), Err(ParseError::Incomplete));
        }
    }
    assert_eq!(IsisTlv::parse_tlv(&[1]), Err(ParseError::Incomplete));
}

#[test]
fn truncated_packet_inside_tlv_list() {
    let pkt = IsisPacket::from(IsisType::L1Lsp, IsisPdu::L1Lsp(scenario_lsp()));
    let bytes = emit_packet(&pkt);
    // The area address TLV ends at 33: a cut there leaves a whole TLV list.
    for cut in 28..bytes.len() {
        let r = parse(&bytes[..cut]);
        if cut == 33 {
            assert!(r.is_ok());
        } else {
            assert_eq!(r, Err(ParseError::Incomplete), "cut at {}", cut);
        }
    }
}

#[test]
fn unknown_pdu_round_trip() {
    let bytes = vec![0x83u8, 20, 1, 0, 0x11, 1, 0, 0, 9, 8, 7, 6, 5];
    let (pkt, used) = parse(&bytes).unwrap();
    assert_eq!(used, bytes.len());
    assert_eq!(pkt.pdu_type, IsisType::P2PHello);
    match &pkt.pdu {
        IsisPdu::Unknown(u) => {
            assert_eq!(u.typ, IsisType::P2PHello);
            assert_eq!(u.payload, vec![9, 8, 7, 6, 5]);
        }
        other => panic!("unexpected {:?}", other),
    }
    assert_eq!(emit_packet(&pkt), bytes);

    let other = vec![0x83u8, 27, 1, 0, 0x30, 1, 0, 0, 1, 2];
    let (pkt, _) = parse(&other).unwrap();
    assert_eq!(pkt.pdu_type, IsisType::Unknown(0x30));
    assert_eq!(emit_packet(&pkt), other);
}

#[test]
fn bad_discriminator() {
    assert_eq!(parse(&[0x82, 27, 1, 0, 0x12, 1, 0, 0]), Err(ParseError::BadDiscriminator));
    assert_eq!(parse(&[]), Err(ParseError::Incomplete));
    assert_eq!(parse(&[0x83, 27, 1]), Err(ParseError::Incomplete));
}

fn rich_tlvs() -> Vec<IsisTlv> {
    let v4_entry = IsisTlvExtIpReachEntry {
        metric: 10,
        flags: Ipv4ControlInfo { bits: 24 | 0x40 },
        prefix: Ipv4Prefix { addr: [10, 1, 2, 0], prefix_len: 24 },
        subs: vec![prefix::IsisSubTlv::PrefixSid(IsisSubPrefixSid {
            flags: PrefixSidFlags { bits: 0x40 },
            algo: 0,
            sid: SidLabelValue::Index(1),
        })],
    };
    let v4_default = IsisTlvExtIpReachEntry {
        metric: 1,
        flags: Ipv4ControlInfo { bits: 0 },
        prefix: Ipv4Prefix { addr: [0, 0, 0, 0], prefix_len: 0 },
        subs: vec![],
    };
    let mut v6addr = [0u8; 16];
    v6addr[0] = 0x20;
    v6addr[1] = 0x01;
    v6addr[2] = 0x0d;
    v6addr[3] = 0xb8;
    let v6_entry = IsisTlvIpv6ReachEntry {
        metric: 20,
        flags: Ipv6ControlInfo { bits: 0 },
        prefix: Ipv6Prefix { addr: v6addr, prefix_len: 32 },
        subs: vec![],
    };
    let nbr = IsisTlvExtIsReachEntry {
        neighbor_id: IsisNeighborId { id: [1, 1, 1, 1, 1, 1, 0] },
        metric: 10,
        subs: vec![
            neigh::IsisSubTlv::Ipv4IfAddr(IsisSubIpv4IfAddr { addr: [192, 168, 0, 1] }),
            neigh::IsisSubTlv::AdjSid(IsisSubAdjSid {
                flags: AdjSidFlags { bits: 0x30 },
                weight: 0,
                sid: SidLabelValue::Label(24001),
            }),
            neigh::IsisSubTlv::LanAdjSid(IsisSubLanAdjSid {
                flags: AdjSidFlags { bits: 0x30 },
                weight: 1,
                system_id: IsisSysId { id: [2, 2, 2, 2, 2, 2] },
                sid: SidLabelValue::Label(24002),
            }),
        ],
    };
    vec![
        IsisTlv::AreaAddr(IsisTlvAreaAddr { area_addr: vec![0x49, 0x00, 0x01] }),
        IsisTlv::IsNeighbor(IsisTlvIsNeighbor { octets: [0, 1, 2, 3, 4, 5] }),
        IsisTlv::Padding(IsisTlvPadding { padding: vec![0; 5] }),
        IsisTlv::ProtoSupported(IsisTlvProtoSupported { nlpids: vec![0xcc, 0x8e] }),
        IsisTlv::Ipv4IfAddr(IsisTlvIpv4IfAddr { addr: [10, 0, 0, 1] }),
        IsisTlv::TeRouterId(IsisTlvTeRouterId { router_id: [1, 1, 1, 1] }),
        IsisTlv::Ipv6IfAddr(IsisTlvIpv6IfAddr { addr: v6addr }),
        IsisTlv::Hostname(IsisTlvHostname { hostname: "r\u{e9}seau".to_string() }),
        IsisTlv::ExtIsReach(IsisTlvExtIsReach { entries: vec![nbr] }),
        IsisTlv::ExtIpReach(IsisTlvExtIpReach { entries: vec![v4_entry.clone(), v4_default] }),
        IsisTlv::MtIpReach(IsisTlvMtIpReach { mt: MultiTopologyId { bits: 2 }, entries: vec![v4_entry] }),
        IsisTlv::Ipv6Reach(IsisTlvIpv6Reach { entries: vec![v6_entry.clone()] }),
        IsisTlv::MtIpv6Reach(IsisTlvMtIpv6Reach { mt: MultiTopologyId { bits: 0x20 }, entries: vec![v6_entry] }),
        IsisTlv::Ipv6TeRouterId(IsisTlvIpv6TeRouterId { router_id: v6addr }),
        IsisTlv::Ipv6GlobalIfAddr(IsisTlvIpv6GlobalIfAddr { addr: v6addr }),
        IsisTlv::LspEntries(IsisTlvLspEntries {
            entries: vec![IsisLspEntry { lifetime: 1, lsp_id: lsp_id(), seq_number: 2, checksum: 3 }],
        }),
        IsisTlv::Unknown(IsisTlvUnknown { typ: IsisTlvType::Unknown(200), len: 2, values: vec![1, 2] }),
        IsisTlv::RouterCap(IsisTlvRouterCap {
            router_id: [1, 1, 1, 1],
            flags: 0,
            subs: vec![
                cap::IsisSubTlv::SegmentRoutingCap(IsisSubSegmentRoutingCap {
                    flags: 0x80,
                    range: 8000,
                    sid: SidLabelValue::Label(16000),
                }),
                cap::IsisSubTlv::SegmentRoutingAlgo(IsisSubSegmentRoutingAlgo { algo: vec![0, 1] }),
                cap::IsisSubTlv::SegmentRoutingLB(IsisSubSegmentRoutingLB {
                    flags: 0,
                    range: 1000,
                    sid: SidLabelValue::Index(15000),
                }),
                cap::IsisSubTlv::NodeMaxSidDepth(IsisSubNodeMaxSidDepth { flags: 1, depth: 10 }),
            ],
        }),
    ]
}

#[test]
fn every_tlv_kind_round_trips() {
    for tlv in rich_tlvs() {
        let bytes = emit_tlv(&tlv);
        assert_eq!(bytes[1] as usize, bytes.len() - 2, "{:?}", tlv);
        let (back, used) = IsisTlv::parse_tlv(&bytes).unwrap();
        assert_eq!(used, bytes.len());
        assert_eq!(back, tlv);
    }
}

#[test]
fn hello_csnp_psnp_round_trip() {
    let hello = IsisHello {
        circuit_type: 3,
        source_id: IsisSysId { id: [1, 2, 3, 4, 5, 6] },
        hold_timer: 30,
        pdu_len: 0,
        priority: 64,
        lan_id: IsisNeighborId { id: [1, 2, 3, 4, 5, 6, 1] },
        tlvs: rich_tlvs(),
    };
    let entries = IsisTlvLspEntries {
        entries: vec![IsisLspEntry { lifetime: 1199, lsp_id: lsp_id(), seq_number: 9, checksum: 0xabcd }],
    };
    let csnp = IsisCsnp {
        pdu_len: 0,
        source_id: IsisSysId { id: [1, 2, 3, 4, 5, 6] },
        source_id_curcuit: 0,
        start: IsisLspId { id: [0; 8] },
        end: IsisLspId { id: [0xff; 8] },
        tlvs: vec![IsisTlv::LspEntries(entries.clone())],
    };
    let psnp = IsisPsnp {
        pdu_len: 0,
        source_id: IsisSysId { id: [1, 2, 3, 4, 5, 6] },
        source_id_curcuit: 0,
        tlvs: vec![IsisTlv::LspEntries(entries)],
    };
    let packets = vec![
        IsisPacket::from(IsisType::L1Hello, IsisPdu::L1Hello(hello.clone())),
        IsisPacket::from(IsisType::L2Hello, IsisPdu::L2Hello(hello)),
        IsisPacket::from(IsisType::L1Csnp, IsisPdu::L1Csnp(csnp.clone())),
        IsisPacket::from(IsisType::L2Csnp, IsisPdu::L2Csnp(csnp)),
        IsisPacket::from(IsisType::L1Psnp, IsisPdu::L1Psnp(psnp.clone())),
        IsisPacket::from(IsisType::L2Psnp, IsisPdu::L2Psnp(psnp)),
    ];
    for pkt in packets {
        let bytes = emit_packet(&pkt);
        let (back, _) = parse(&bytes).unwrap();
        let len = match &back.pdu {
            IsisPdu::L1Hello(h) | IsisPdu::L2Hello(h) => h.pdu_len,
            IsisPdu::L1Csnp(c) | IsisPdu::L2Csnp(c) => c.pdu_len,
            IsisPdu::L1Psnp(p) | IsisPdu::L2Psnp(p) => p.pdu_len,
            other => panic!("unexpected {:?}", other),
        };
        assert_eq!(len as usize, bytes.len());
        assert_eq!(back.pdu_type, pkt.pdu_type);
        assert_eq!(emit_packet(&back), bytes);
        let mut fixed = pkt.clone();
        match &mut fixed.pdu {
            IsisPdu::L1Hello(h) | IsisPdu::L2Hello(h) => h.pdu_len = len,
            IsisPdu::L1Csnp(c) | IsisPdu::L2Csnp(c) => c.pdu_len = len,
            IsisPdu::L1Psnp(p) | IsisPdu::L2Psnp(p) => p.pdu_len = len,
            _ => {}
        }
        assert_eq!(back, fixed);
    }
}

#[test]
fn lsp_entries_ignore_partial_tail() {
    let mut bytes = vec![9u8, 20];
    bytes.extend_from_slice(&[0x04, 0xaf, 1, 2, 3, 4, 5, 6, 0, 0, 0, 0, 0, 9, 0xab, 0xcd]);
    bytes.extend_from_slice(&[1, 2, 3, 4]);
    let (tlv, used) = IsisTlv::parse_tlv(&bytes).unwrap();
    assert_eq!(used, 22);
    match tlv {
        IsisTlv::LspEntries(e) => {
            assert_eq!(e.entries.len(), 1);
            assert_eq!(e.entries[0].lifetime, 1199);
            assert_eq!(e.entries[0].checksum, 0xabcd);
        }
        other => panic!("unexpected {:?}", other),
    }
}

#[test]
fn prefix_codec_boundaries() {
    for len in 0u8..=32 {
        assert_eq!(psize(len), (len as usize + 7) / 8);
        let addr = [0xffu8; 4];
        let (p, used) = ptake(&addr, len).unwrap();
        assert_eq!(used, psize(len));
        assert_eq!(p.prefix_len, len);
        for i in 0..4 {
            assert_eq!(p.addr[i], if i < used { 0xff } else { 0 });
        }
    }
    for len in 0u8..=128 {
        let addr = [0xabu8; 16];
        let (p, used) = ptakev6(&addr, len).unwrap();
        assert_eq!(used, (len as usize + 7) / 8);
        assert_eq!(p.prefix_len, len);
    }
    assert_eq!(ptake(&[0; 8], 33), Err(ParseError::Invalid));
    assert_eq!(ptakev6(&[0; 17], 129), Err(ParseError::Invalid));
    assert_eq!(ptake(&[10, 1], 24), Err(ParseError::Incomplete));
    assert_eq!(psize(0), 0);
    assert_eq!(psize(1), 1);
    assert_eq!(psize(9), 2);
}

#[test]
fn ipv4_entry_wire_bytes() {
    let e = IsisTlvExtIpReachEntry {
        metric: 10,
        flags: Ipv4ControlInfo { bits: 24 },
        prefix: Ipv4Prefix { addr: [10, 1, 2, 0], prefix_len: 24 },
        subs: vec![],
    };
    assert_eq!(e.len(), 8);
    let mut buf = BytesMut::new();
    e.emit(&mut buf);
    assert_eq!(buf.to_vec(), vec![0, 0, 0, 10, 24, 10, 1, 2]);
    let (back, used) = IsisTlvExtIpReachEntry::parse_be(&buf).unwrap();
    assert_eq!(used, 8);
    assert_eq!(back, e);
}

#[test]
fn ipv4_entry_bad_prefix_len() {
    // Control byte announces a 40-bit prefix.
    let bytes = vec![0u8, 0, 0, 1, 40, 1, 2, 3, 4, 5];
    assert_eq!(IsisTlvExtIpReachEntry::parse_be(&bytes), Err(ParseError::Invalid));
}

#[test]
fn ext_is_entry_sub_block_overrun() {
    // Sub-TLV block length 9, but only 2 bytes follow.
    let bytes = vec![1u8, 1, 1, 1, 1, 1, 0, 0, 0, 10, 9, 6, 4];
    assert_eq!(IsisTlvExtIsReachEntry::parse_be(&bytes), Err(ParseError::Incomplete));
}

#[test]
fn hostname_lossy_decoding() {
    let h = IsisTlvHostname::parse_be(&[0xff, b'a', b'b']);
    assert_eq!(h.hostname, "\u{fffd}ab");
    let bytes = vec![137u8, 3, b'r', b'1', b'x'];
    let (tlv, _) = IsisTlv::parse_tlv(&bytes).unwrap();
    assert_eq!(tlv, IsisTlv::Hostname(IsisTlvHostname { hostname: "r1x".to_string() }));
}

#[test]
fn address_tlv_too_short() {
    assert_eq!(IsisTlv::parse_tlv(&[132, 2, 10, 0]), Err(ParseError::Incomplete));
    assert_eq!(IsisTlv::parse_tlv(&[232, 4, 0, 0, 0, 0]), Err(ParseError::Incomplete));
    assert_eq!(IsisTlv::parse_tlv(&[1, 2, 5, 1]), Err(ParseError::Incomplete));
}

#[test]
fn identifiers_project() {
    let sys = IsisSysId { id: [1, 2, 3, 4, 5, 6] };
    let lsp = IsisLspId::new(sys, 7, 8);
    assert_eq!(lsp.id, [1, 2, 3, 4, 5, 6, 7, 8]);
    assert_eq!(lsp.sys_id(), sys);
    assert_eq!(lsp.neighbor_id(), IsisNeighborId { id: [1, 2, 3, 4, 5, 6, 7] });
    assert_eq!(lsp.pseudo_id(), 7);
    assert_eq!(lsp.fragment_id(), 8);
    let nbr = lsp.neighbor_id();
    assert_eq!(nbr.sys_id(), sys);
    assert_eq!(nbr.pseudo_id(), 7);
}

#[test]
fn small_helpers() {
    assert_eq!(u32_u8_3(0x12345678), [0x34, 0x56, 0x78]);
    assert_eq!(nlpid_str(0xcc), "IPv4");
    assert_eq!(nlpid_str(0x8e), "IPv6");
    assert_eq!(nlpid_str(0x01), "Unknown");
    assert_eq!(length_indicator(IsisType::L1Csnp), 33);
    assert_eq!(length_indicator(IsisType::L2Psnp), 17);
    assert_eq!(length_indicator(IsisType::L1Hello), 27);
    assert_eq!(IsisType::from_u8(0x12), IsisType::L1Lsp);
    assert_eq!(IsisType::L2Psnp.to_u8(), 0x1b);
    assert_eq!(IsisTlvType::from_u8(242), IsisTlvType::RouterCap);
    assert!(!IsisTlvType::from_u8(250).is_known());
    let flags = AdjSidFlags { bits: 0b1011_0100 };
    assert!(flags.f_flag() && !flags.b_flag() && flags.v_flag() && flags.l_flag());
    assert!(!flags.s_flag() && flags.p_flag());
    assert_eq!(SidLabelValue::Label(5).len(), 3);
    assert_eq!(SidLabelValue::Index(5).len(), 4);
    assert_eq!(SidLabelValue::Index(5).value(), 5);
}

#[test]
fn mutated_unknown_tlv_reemits_its_length() {
    let bytes = vec![250u8, 3, 7, 8, 9];
    let (mut tlv, _) = IsisTlv::parse_tlv(&bytes).unwrap();
    if let IsisTlv::Unknown(u) = &mut tlv {
        u.values.push(10);
        u.values.push(11);
    }
    assert_eq!(emit_tlv(&tlv), vec![250u8, 5, 7, 8, 9, 10, 11]);
    let (back, used) = IsisTlv::parse_tlv(&emit_tlv(&tlv)).unwrap();
    assert_eq!(used, 7);
    match back {
        IsisTlv::Unknown(u) => {
            assert_eq!(u.len, 5);
            assert_eq!(u.values, vec![7, 8, 9, 10, 11]);
        }
        other => panic!("unexpected {:?}", other),
    }
}

#[test]
fn mutated_unknown_sub_tlv_reemits_its_length() {
    let bytes = vec![99u8, 2, 0xaa, 0xbb];
    let (mut sub, _) = prefix::IsisSubTlv::parse_subs(&bytes).unwrap();
    if let prefix::IsisSubTlv::Unknown(u) = &mut sub {
        u.data.truncate(1);
    }
    let mut buf = BytesMut::new();
    sub.emit(&mut buf);
    assert_eq!(buf.to_vec(), vec![99u8, 1, 0xaa]);
    let (mut n, _) = neigh::IsisSubTlv::parse_subs(&bytes).unwrap();
    if let neigh::IsisSubTlv::Unknown(u) = &mut n {
        u.data.clear();
    }
    let mut buf = BytesMut::new();
    n.emit(&mut buf);
    assert_eq!(buf.to_vec(), vec![99u8, 0]);
    let (mut c, _) = cap::IsisSubTlv::parse_subs(&bytes).unwrap();
    if let cap::IsisSubTlv::Unknown(u) = &mut c {
        u.data.push(0xcc);
    }
    let mut buf = BytesMut::new();
    c.emit(&mut buf);
    assert_eq!(buf.to_vec(), vec![99u8, 3, 0xaa, 0xbb, 0xcc]);
}
