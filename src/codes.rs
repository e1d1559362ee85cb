//! Type codes of PDUs, TLVs and the three sub-TLV namespaces.

use vstd::prelude::*;
use crate::wire::ParseError;

verus! {

/// The PDU type code of a packet.
#[derive(Debug, Clone, Copy, PartialEq, Eq)]
pub enum IsisType {
    L1Hello,
    L2Hello,
    P2PHello,
    L1Lsp,
    L2Lsp,
    L1Csnp,
    L2Csnp,
    L1Psnp,
    L2Psnp,
    Unknown(u8),
}

impl IsisType {
    pub open spec fn spec_from_u8(v: u8) -> Self {
        if v == 15 {
            IsisType::L1Hello
        } else if v == 16 {
            IsisType::L2Hello
        } else if v == 17 {
            IsisType::P2PHello
        } else if v == 18 {
            IsisType::L1Lsp
        } else if v == 20 {
            IsisType::L2Lsp
        } else if v == 24 {
            IsisType::L1Csnp
        } else if v == 25 {
            IsisType::L2Csnp
        } else if v == 26 {
            IsisType::L1Psnp
        } else if v == 27 {
            IsisType::L2Psnp
        } else {
            IsisType::Unknown(v)
        }
    }

    pub open spec fn spec_to_u8(self) -> u8 {
        match self {
            IsisType::L1Hello => 15,
            IsisType::L2Hello => 16,
            IsisType::P2PHello => 17,
            IsisType::L1Lsp => 18,
            IsisType::L2Lsp => 20,
            IsisType::L1Csnp => 24,
            IsisType::L2Csnp => 25,
            IsisType::L1Psnp => 26,
            IsisType::L2Psnp => 27,
            IsisType::Unknown(v) => v,
        }
    }

    pub fn from_u8(v: u8) -> (r: Self)
        ensures
            r == Self::spec_from_u8(v),
    {
        match v {
            15 => IsisType::L1Hello,
            16 => IsisType::L2Hello,
            17 => IsisType::P2PHello,
            18 => IsisType::L1Lsp,
            20 => IsisType::L2Lsp,
            24 => IsisType::L1Csnp,
            25 => IsisType::L2Csnp,
            26 => IsisType::L1Psnp,
            27 => IsisType::L2Psnp,
            _ => IsisType::Unknown(v),
        }
    }

    pub fn to_u8(&self) -> (r: u8)
        ensures
            r == self.spec_to_u8(),
    {
        match self {
            IsisType::L1Hello => 15,
            IsisType::L2Hello => 16,
            IsisType::P2PHello => 17,
            IsisType::L1Lsp => 18,
            IsisType::L2Lsp => 20,
            IsisType::L1Csnp => 24,
            IsisType::L2Csnp => 25,
            IsisType::L1Psnp => 26,
            IsisType::L2Psnp => 27,
            IsisType::Unknown(v) => *v,
        }
    }

    /// Reads the code from the first byte of `input`.
    pub fn parse_be(input: &[u8]) -> (r: Result<(Self, usize), ParseError>)
        ensures
            match r {
                Ok((t, n)) => input@.len() >= 1 && t == Self::spec_from_u8(input@[0]) && n == 1,
                Err(e) => input@.len() == 0 && e == ParseError::Incomplete,
            },
    {
        if input.len() < 1 {
            return Err(ParseError::Incomplete);
        }
        Ok((Self::from_u8(input[0]), 1))
    }
}

/// Every byte survives the trip through the code and back.
pub proof fn lemma_pdu_type_u8(v: u8)
    ensures
        IsisType::spec_from_u8(v).spec_to_u8() == v,
{
}

/// The type code of a top-level TLV.
#[derive(Debug, Clone, Copy, PartialEq, Eq)]
pub enum IsisTlvType {
    AreaAddr,
    IsNeighbor,
    Padding,
    LspEntries,
    ExtIsReach,
    ProtSupported,
    Ipv4IfAddr,
    TeRouterId,
    ExtIpReach,
    DynamicHostname,
    Ipv6TeRouterId,
    Ipv6IfAddr,
    Ipv6GlobalIfAddr,
    MtIpReach,
    Ipv6Reach,
    MtIpv6Reach,
    RouterCap,
    Unknown(u8),
}

impl IsisTlvType {
    pub open spec fn spec_from_u8(v: u8) -> Self {
        if v == 1 {
            IsisTlvType::AreaAddr
        } else if v == 6 {
            IsisTlvType::IsNeighbor
        } else if v == 8 {
            IsisTlvType::Padding
        } else if v == 9 {
            IsisTlvType::LspEntries
        } else if v == 22 {
            IsisTlvType::ExtIsReach
        } else if v == 129 {
            IsisTlvType::ProtSupported
        } else if v == 132 {
            IsisTlvType::Ipv4IfAddr
        } else if v == 134 {
            IsisTlvType::TeRouterId
        } else if v == 135 {
            IsisTlvType::ExtIpReach
        } else if v == 137 {
            IsisTlvType::DynamicHostname
        } else if v == 140 {
            IsisTlvType::Ipv6TeRouterId
        } else if v == 232 {
            IsisTlvType::Ipv6IfAddr
        } else if v == 233 {
            IsisTlvType::Ipv6GlobalIfAddr
        } else if v == 235 {
            IsisTlvType::MtIpReach
        } else if v == 236 {
            IsisTlvType::Ipv6Reach
        } else if v == 237 {
            IsisTlvType::MtIpv6Reach
        } else if v == 242 {
            IsisTlvType::RouterCap
        } else {
            IsisTlvType::Unknown(v)
        }
    }

    pub open spec fn spec_to_u8(self) -> u8 {
        match self {
            IsisTlvType::AreaAddr => 1,
            IsisTlvType::IsNeighbor => 6,
            IsisTlvType::Padding => 8,
            IsisTlvType::LspEntries => 9,
            IsisTlvType::ExtIsReach => 22,
            IsisTlvType::ProtSupported => 129,
            IsisTlvType::Ipv4IfAddr => 132,
            IsisTlvType::TeRouterId => 134,
            IsisTlvType::ExtIpReach => 135,
            IsisTlvType::DynamicHostname => 137,
            IsisTlvType::Ipv6TeRouterId => 140,
            IsisTlvType::Ipv6IfAddr => 232,
            IsisTlvType::Ipv6GlobalIfAddr => 233,
            IsisTlvType::MtIpReach => 235,
            IsisTlvType::Ipv6Reach => 236,
            IsisTlvType::MtIpv6Reach => 237,
            IsisTlvType::RouterCap => 242,
            IsisTlvType::Unknown(v) => v,
        }
    }

    pub fn from_u8(v: u8) -> (r: Self)
        ensures
            r == Self::spec_from_u8(v),
    {
        match v {
            1 => IsisTlvType::AreaAddr,
            6 => IsisTlvType::IsNeighbor,
            8 => IsisTlvType::Padding,
            9 => IsisTlvType::LspEntries,
            22 => IsisTlvType::ExtIsReach,
            129 => IsisTlvType::ProtSupported,
            132 => IsisTlvType::Ipv4IfAddr,
            134 => IsisTlvType::TeRouterId,
            135 => IsisTlvType::ExtIpReach,
            137 => IsisTlvType::DynamicHostname,
            140 => IsisTlvType::Ipv6TeRouterId,
            232 => IsisTlvType::Ipv6IfAddr,
            233 => IsisTlvType::Ipv6GlobalIfAddr,
            235 => IsisTlvType::MtIpReach,
            236 => IsisTlvType::Ipv6Reach,
            237 => IsisTlvType::MtIpv6Reach,
            242 => IsisTlvType::RouterCap,
            _ => IsisTlvType::Unknown(v),
        }
    }

    pub fn to_u8(&self) -> (r: u8)
        ensures
            r == self.spec_to_u8(),
    {
        match self {
            IsisTlvType::AreaAddr => 1,
            IsisTlvType::IsNeighbor => 6,
            IsisTlvType::Padding => 8,
            IsisTlvType::LspEntries => 9,
            IsisTlvType::ExtIsReach => 22,
            IsisTlvType::ProtSupported => 129,
            IsisTlvType::Ipv4IfAddr => 132,
            IsisTlvType::TeRouterId => 134,
            IsisTlvType::ExtIpReach => 135,
            IsisTlvType::DynamicHostname => 137,
            IsisTlvType::Ipv6TeRouterId => 140,
            IsisTlvType::Ipv6IfAddr => 232,
            IsisTlvType::Ipv6GlobalIfAddr => 233,
            IsisTlvType::MtIpReach => 235,
            IsisTlvType::Ipv6Reach => 236,
            IsisTlvType::MtIpv6Reach => 237,
            IsisTlvType::RouterCap => 242,
            IsisTlvType::Unknown(v) => *v,
        }
    }

    /// Reads the code from the first byte of `input`.
    pub fn parse_be(input: &[u8]) -> (r: Result<(Self, usize), ParseError>)
        ensures
            match r {
                Ok((t, n)) => input@.len() >= 1 && t == Self::spec_from_u8(input@[0]) && n == 1,
                Err(e) => input@.len() == 0 && e == ParseError::Incomplete,
            },
    {
        if input.len() < 1 {
            return Err(ParseError::Incomplete);
        }
        Ok((Self::from_u8(input[0]), 1))
    }

    pub open spec fn spec_is_known(self) -> bool {
        !(self is Unknown)
    }

    /// Whether the code is one this codec dissects.
    pub fn is_known(&self) -> (r: bool)
        ensures
            r == self.spec_is_known(),
    {
        !matches!(self, IsisTlvType::Unknown(_))
    }
}

/// Every byte survives the trip through the code and back.
pub proof fn lemma_tlv_type_u8(v: u8)
    ensures
        IsisTlvType::spec_from_u8(v).spec_to_u8() == v,
{
}

/// The code of a sub-TLV inside an extended IS reachability entry.
#[derive(Debug, Clone, Copy, PartialEq, Eq)]
pub enum IsisNeighCode {
    Ipv4IfAddr,
    Ipv4NeighAddr,
    Ipv6IfAddr,
    Ipv6NeighAddr,
    AdjSid,
    LanAdjSid,
    Unknown(u8),
}

impl IsisNeighCode {
    pub open spec fn spec_from_u8(v: u8) -> Self {
        if v == 6 {
            IsisNeighCode::Ipv4IfAddr
        } else if v == 8 {
            IsisNeighCode::Ipv4NeighAddr
        } else if v == 12 {
            IsisNeighCode::Ipv6IfAddr
        } else if v == 13 {
            IsisNeighCode::Ipv6NeighAddr
        } else if v == 31 {
            IsisNeighCode::AdjSid
        } else if v == 32 {
            IsisNeighCode::LanAdjSid
        } else {
            IsisNeighCode::Unknown(v)
        }
    }

    pub open spec fn spec_to_u8(self) -> u8 {
        match self {
            IsisNeighCode::Ipv4IfAddr => 6,
            IsisNeighCode::Ipv4NeighAddr => 8,
            IsisNeighCode::Ipv6IfAddr => 12,
            IsisNeighCode::Ipv6NeighAddr => 13,
            IsisNeighCode::AdjSid => 31,
            IsisNeighCode::LanAdjSid => 32,
            IsisNeighCode::Unknown(v) => v,
        }
    }

    pub fn from_u8(v: u8) -> (r: Self)
        ensures
            r == Self::spec_from_u8(v),
    {
        match v {
            6 => IsisNeighCode::Ipv4IfAddr,
            8 => IsisNeighCode::Ipv4NeighAddr,
            12 => IsisNeighCode::Ipv6IfAddr,
            13 => IsisNeighCode::Ipv6NeighAddr,
            31 => IsisNeighCode::AdjSid,
            32 => IsisNeighCode::LanAdjSid,
            _ => IsisNeighCode::Unknown(v),
        }
    }

    pub fn to_u8(&self) -> (r: u8)
        ensures
            r == self.spec_to_u8(),
    {
        match self {
            IsisNeighCode::Ipv4IfAddr => 6,
            IsisNeighCode::Ipv4NeighAddr => 8,
            IsisNeighCode::Ipv6IfAddr => 12,
            IsisNeighCode::Ipv6NeighAddr => 13,
            IsisNeighCode::AdjSid => 31,
            IsisNeighCode::LanAdjSid => 32,
            IsisNeighCode::Unknown(v) => *v,
        }
    }

    /// Reads the code from the first byte of `input`.
    pub fn parse_be(input: &[u8]) -> (r: Result<(Self, usize), ParseError>)
        ensures
            match r {
                Ok((t, n)) => input@.len() >= 1 && t == Self::spec_from_u8(input@[0]) && n == 1,
                Err(e) => input@.len() == 0 && e == ParseError::Incomplete,
            },
    {
        if input.len() < 1 {
            return Err(ParseError::Incomplete);
        }
        Ok((Self::from_u8(input[0]), 1))
    }
}

/// Every byte survives the trip through the code and back.
pub proof fn lemma_neigh_code_u8(v: u8)
    ensures
        IsisNeighCode::spec_from_u8(v).spec_to_u8() == v,
{
}

/// The code of a sub-TLV inside a prefix reachability entry.
#[derive(Debug, Clone, Copy, PartialEq, Eq)]
pub enum IsisPrefixCode {
    PrefixSid,
    Unknown(u8),
}

impl IsisPrefixCode {
    pub open spec fn spec_from_u8(v: u8) -> Self {
        if v == 3 {
            IsisPrefixCode::PrefixSid
        } else {
            IsisPrefixCode::Unknown(v)
        }
    }

    pub open spec fn spec_to_u8(self) -> u8 {
        match self {
            IsisPrefixCode::PrefixSid => 3,
            IsisPrefixCode::Unknown(v) => v,
        }
    }

    pub fn from_u8(v: u8) -> (r: Self)
        ensures
            r == Self::spec_from_u8(v),
    {
        match v {
            3 => IsisPrefixCode::PrefixSid,
            _ => IsisPrefixCode::Unknown(v),
        }
    }

    pub fn to_u8(&self) -> (r: u8)
        ensures
            r == self.spec_to_u8(),
    {
        match self {
            IsisPrefixCode::PrefixSid => 3,
            IsisPrefixCode::Unknown(v) => *v,
        }
    }

    /// Reads the code from the first byte of `input`.
    pub fn parse_be(input: &[u8]) -> (r: Result<(Self, usize), ParseError>)
        ensures
            match r {
                Ok((t, n)) => input@.len() >= 1 && t == Self::spec_from_u8(input@[0]) && n == 1,
                Err(e) => input@.len() == 0 && e == ParseError::Incomplete,
            },
    {
        if input.len() < 1 {
            return Err(ParseError::Incomplete);
        }
        Ok((Self::from_u8(input[0]), 1))
    }
}

/// Every byte survives the trip through the code and back.
pub proof fn lemma_prefix_code_u8(v: u8)
    ensures
        IsisPrefixCode::spec_from_u8(v).spec_to_u8() == v,
{
}

/// The code of a sub-TLV inside a router capability TLV.
#[derive(Debug, Clone, Copy, PartialEq, Eq)]
pub enum IsisCapCode {
    SegmentRoutingCap,
    SegmentRoutingAlgo,
    SegmentRoutingLb,
    NodeMaxSidDepth,
    Unknown(u8),
}

impl IsisCapCode {
    pub open spec fn spec_from_u8(v: u8) -> Self {
        if v == 2 {
            IsisCapCode::SegmentRoutingCap
        } else if v == 19 {
            IsisCapCode::SegmentRoutingAlgo
        } else if v == 22 {
            IsisCapCode::SegmentRoutingLb
        } else if v == 23 {
            IsisCapCode::NodeMaxSidDepth
        } else {
            IsisCapCode::Unknown(v)
        }
    }

    pub open spec fn spec_to_u8(self) -> u8 {
        match self {
            IsisCapCode::SegmentRoutingCap => 2,
            IsisCapCode::SegmentRoutingAlgo => 19,
            IsisCapCode::SegmentRoutingLb => 22,
            IsisCapCode::NodeMaxSidDepth => 23,
            IsisCapCode::Unknown(v) => v,
        }
    }

    pub fn from_u8(v: u8) -> (r: Self)
        ensures
            r == Self::spec_from_u8(v),
    {
        match v {
            2 => IsisCapCode::SegmentRoutingCap,
            19 => IsisCapCode::SegmentRoutingAlgo,
            22 => IsisCapCode::SegmentRoutingLb,
            23 => IsisCapCode::NodeMaxSidDepth,
            _ => IsisCapCode::Unknown(v),
        }
    }

    pub fn to_u8(&self) -> (r: u8)
        ensures
            r == self.spec_to_u8(),
    {
        match self {
            IsisCapCode::SegmentRoutingCap => 2,
            IsisCapCode::SegmentRoutingAlgo => 19,
            IsisCapCode::SegmentRoutingLb => 22,
            IsisCapCode::NodeMaxSidDepth => 23,
            IsisCapCode::Unknown(v) => *v,
        }
    }

    /// Reads the code from the first byte of `input`.
    pub fn parse_be(input: &[u8]) -> (r: Result<(Self, usize), ParseError>)
        ensures
            match r {
                Ok((t, n)) => input@.len() >= 1 && t == Self::spec_from_u8(input@[0]) && n == 1,
                Err(e) => input@.len() == 0 && e == ParseError::Incomplete,
            },
    {
        if input.len() < 1 {
            return Err(ParseError::Incomplete);
        }
        Ok((Self::from_u8(input[0]), 1))
    }
}

/// Every byte survives the trip through the code and back.
pub proof fn lemma_cap_code_u8(v: u8)
    ensures
        IsisCapCode::spec_from_u8(v).spec_to_u8() == v,
{
}

} // verus!
