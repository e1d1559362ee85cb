//! Wire codec for IS-IS control packets: PDUs, TLVs and their scoped sub-TLVs.
//!
//! Every decoder is stated against a model of the bytes it reads, every
//! emitter against the bytes it appends, and `laws` proves that the two agree.

pub mod buf;
pub mod wire;
pub mod record;
pub mod tlv_frame;
pub mod sid;
pub mod ident;
pub mod codes;
pub mod unknown;
pub mod neigh;
pub mod prefix;
pub mod cap;
pub mod tlv;
pub mod packet;
pub mod laws;

pub use codes::{IsisCapCode, IsisNeighCode, IsisPrefixCode, IsisTlvType, IsisType};
pub use ident::{IsisLspId, IsisNeighborId, IsisSysId};
pub use packet::{
    length_indicator, parse, IsisCsnp, IsisHello, IsisLsp, IsisPacket, IsisPdu, IsisPsnp,
    IsisUnknown,
};
pub use sid::SidLabelValue;
pub use tlv::{
    nlpid_str, IsisLspEntry, IsisProto, IsisTlv, IsisTlvAreaAddr, IsisTlvHostname,
    IsisTlvIpv4IfAddr, IsisTlvIpv6GlobalIfAddr, IsisTlvIpv6IfAddr, IsisTlvIpv6TeRouterId,
    IsisTlvIsNeighbor, IsisTlvLspEntries, IsisTlvPadding, IsisTlvProtoSupported,
    IsisTlvTeRouterId, IsisTlvUnknown,
};
pub use unknown::IsisSubTlvUnknown;
pub use wire::{u32_u8_3, ParseError};
