//! The top-level option catalog: what each tag holds, and how one record
//! decodes.
use vstd::prelude::*;
use vstd::utf8::{decode_utf8, valid_utf8};
use crate::framing::{END, PAD};
use crate::option82::{parse_sub_options, sub_options_of, RelayAgentInformationSubOption};
use crate::wire::{
    be_i32, be_u16, be_u32, flag_ok, ipv4_at, ipv4_list_at, ipv4_list_ok, ipv4_pairs_at,
    ipv4_pairs_ok, read_bytes, read_flag, read_i32, read_ipv4, read_ipv4_list, read_ipv4_pairs,
    read_text, read_u16, read_u16_list, read_u32, read_u8, u16_list_at, u16_list_ok, Ipv4Address,
};

verus! {

/// The DHCP message types (option 53).
#[derive(Debug, Clone, Copy, PartialEq, Eq, Hash)]
pub enum DhcpMessageTypes {
    Discover,
    Offer,
    Request,
    Decline,
    Ack,
    Nak,
    Release,
}

/// The message type that a byte of option 53 stands for.
pub open spec fn message_type_of(b: u8) -> Option<DhcpMessageTypes> {
    match b {
        1 => Some(DhcpMessageTypes::Discover),
        2 => Some(DhcpMessageTypes::Offer),
        3 => Some(DhcpMessageTypes::Request),
        4 => Some(DhcpMessageTypes::Decline),
        5 => Some(DhcpMessageTypes::Ack),
        6 => Some(DhcpMessageTypes::Nak),
        7 => Some(DhcpMessageTypes::Release),
        _ => None,
    }
}

/// Reads a message type from exactly one byte.
pub fn read_message_type(v: &[u8]) -> (r: Option<DhcpMessageTypes>)
    ensures
        r is Some <==> v@.len() == 1 && message_type_of(v@[0]) is Some,
        r matches Some(x) ==> message_type_of(v@[0]) == Some(x),
{
    if v.len() != 1 {
        return None;
    }
    match v[0] {
        1 => Some(DhcpMessageTypes::Discover),
        2 => Some(DhcpMessageTypes::Offer),
        3 => Some(DhcpMessageTypes::Request),
        4 => Some(DhcpMessageTypes::Decline),
        5 => Some(DhcpMessageTypes::Ack),
        6 => Some(DhcpMessageTypes::Nak),
        7 => Some(DhcpMessageTypes::Release),
        _ => None,
    }
}

/// The NetBIOS over TCP/IP node types (option 46).
#[derive(Debug, Clone, Copy, PartialEq, Eq, Hash)]
pub enum NetBiosNodeTypes {
    BNode,
    PNode,
    MNode,
    HNode,
}

/// The node type that a byte of option 46 stands for.
pub open spec fn node_type_of(b: u8) -> Option<NetBiosNodeTypes> {
    match b {
        1 => Some(NetBiosNodeTypes::BNode),
        2 => Some(NetBiosNodeTypes::PNode),
        4 => Some(NetBiosNodeTypes::MNode),
        8 => Some(NetBiosNodeTypes::HNode),
        _ => None,
    }
}

/// Reads a node type from exactly one byte.
pub fn read_node_type(v: &[u8]) -> (r: Option<NetBiosNodeTypes>)
    ensures
        r is Some <==> v@.len() == 1 && node_type_of(v@[0]) is Some,
        r matches Some(x) ==> node_type_of(v@[0]) == Some(x),
{
    if v.len() != 1 {
        return None;
    }
    match v[0] {
        1 => Some(NetBiosNodeTypes::BNode),
        2 => Some(NetBiosNodeTypes::PNode),
        4 => Some(NetBiosNodeTypes::MNode),
        8 => Some(NetBiosNodeTypes::HNode),
        _ => None,
    }
}

/// Which header fields carry further options (option 52).
#[derive(Debug, Clone, Copy, PartialEq, Eq, Hash)]
pub enum OptionOverloadTypes {
    File,
    Sname,
    Both,
}

/// The overload mode that a byte of option 52 stands for.
pub open spec fn overload_of(b: u8) -> Option<OptionOverloadTypes> {
    match b {
        1 => Some(OptionOverloadTypes::File),
        2 => Some(OptionOverloadTypes::Sname),
        3 => Some(OptionOverloadTypes::Both),
        _ => None,
    }
}

/// Reads an overload mode from exactly one byte.
pub fn read_overload(v: &[u8]) -> (r: Option<OptionOverloadTypes>)
    ensures
        r is Some <==> v@.len() == 1 && overload_of(v@[0]) is Some,
        r matches Some(x) ==> overload_of(v@[0]) == Some(x),
{
    if v.len() != 1 {
        return None;
    }
    match v[0] {
        1 => Some(OptionOverloadTypes::File),
        2 => Some(OptionOverloadTypes::Sname),
        3 => Some(OptionOverloadTypes::Both),
        _ => None,
    }
}

/// One decoded option. `Pad` and `End` are the one-byte sentinels; every
/// other variant owns its value.
#[derive(Debug, Clone, PartialEq, Eq)]
pub enum DhcpOption {
    /// Tag 0, one byte with no length.
    Pad,
    /// Tag 255, one byte with no length; nothing after it is read.
    End,
    /// Tag 1.
    SubnetMask(Ipv4Address),
    /// Tag 2.
    TimeOffset(i32),
    /// Tag 3.
    Router(Vec<Ipv4Address>),
    /// Tag 4.
    TimeServer(Vec<Ipv4Address>),
    /// Tag 5.
    NameServer(Vec<Ipv4Address>),
    /// Tag 6.
    DomainNameServer(Vec<Ipv4Address>),
    /// Tag 7.
    LogServer(Vec<Ipv4Address>),
    /// Tag 8.
    CookieServer(Vec<Ipv4Address>),
    /// Tag 9.
    LprServer(Vec<Ipv4Address>),
    /// Tag 10.
    ImpressServer(Vec<Ipv4Address>),
    /// Tag 11.
    ResourceLocationServer(Vec<Ipv4Address>),
    /// Tag 12.
    HostName(String),
    /// Tag 13.
    BootFileSize(u16),
    /// Tag 14.
    MeritDumpFile(String),
    /// Tag 15.
    DomainName(String),
    /// Tag 16.
    SwapServer(Ipv4Address),
    /// Tag 17.
    RootPath(String),
    /// Tag 18.
    ExtensionsPath(String),
    /// Tag 19.
    IPForwarding(bool),
    /// Tag 20.
    NonLocalSourceRouting(bool),
    /// Tag 22.
    MaxDatagramReassemblySize(u16),
    /// Tag 23.
    DefaultIpTtl(u8),
    /// Tag 24.
    PathMtuAgingTimeout(u32),
    /// Tag 25.
    PathMtuPlateauTable(Vec<u16>),
    /// Tag 26.
    InterfaceMtu(u16),
    /// Tag 27.
    AllSubnetsAreLocal(bool),
    /// Tag 28.
    BroadcastAddress(Ipv4Address),
    /// Tag 29.
    PerformMaskDiscovery(bool),
    /// Tag 30.
    MaskSupplier(bool),
    /// Tag 31.
    PerformRouterDiscovery(bool),
    /// Tag 32.
    RouterSolicitationAddress(Ipv4Address),
    /// Tag 33.
    StaticRoute(Vec<(Ipv4Address, Ipv4Address)>),
    /// Tag 34.
    TrailerEncapsulation(bool),
    /// Tag 35.
    ArpCacheTimeout(u32),
    /// Tag 36.
    EthernetEncapsulation(bool),
    /// Tag 37.
    TcpDefaultTtl(u8),
    /// Tag 38.
    TcpKeepaliveInterval(u32),
    /// Tag 39.
    TcpKeepaliveGarbage(bool),
    /// Tag 40.
    NisDomain(String),
    /// Tag 41.
    NetworkInformationServers(Vec<Ipv4Address>),
    /// Tag 42.
    NtpServers(Vec<Ipv4Address>),
    /// Tag 43.
    VendorExtensions(Vec<u8>),
    /// Tag 44.
    NetBiosNameServers(Vec<Ipv4Address>),
    /// Tag 45.
    NetBiosDatagramDistributionServer(Vec<Ipv4Address>),
    /// Tag 46.
    NetBiosNodeType(NetBiosNodeTypes),
    /// Tag 47.
    NetBiosScope(String),
    /// Tag 48.
    XFontServer(Vec<Ipv4Address>),
    /// Tag 49.
    XDisplayManager(Vec<Ipv4Address>),
    /// Tag 50.
    RequestedIpAddress(Ipv4Address),
    /// Tag 51.
    IpAddressLeaseTime(u32),
    /// Tag 52.
    OptionOverload(OptionOverloadTypes),
    /// Tag 53.
    MessageType(DhcpMessageTypes),
    /// Tag 54.
    ServerIdentifier(Ipv4Address),
    /// Tag 55.
    ParamRequestList(Vec<u8>),
    /// Tag 56.
    Message(String),
    /// Tag 57.
    MaxMessageSize(u16),
    /// Tag 82.
    RelayAgentInformation(Vec<RelayAgentInformationSubOption>),
}

/// The catalog accepts a record with this tag and value: the tag is known
/// and the value has the shape that the tag calls for.
pub open spec fn option_accepts(tag: u8, v: Seq<u8>) -> bool {
    match tag {
        0 | 255 => v.len() == 0,
        1 | 2 | 16 | 24 | 28 | 32 | 35 | 38 | 50 | 51 | 54 => v.len() == 4,
        3 | 4 | 5 | 6 | 7 | 8 | 9 | 10 | 11 | 41 | 42 | 44 | 45 | 48 | 49 => ipv4_list_ok(v),
        12 | 14 | 15 | 17 | 18 | 40 | 47 | 56 => valid_utf8(v),
        13 | 22 | 26 | 57 => v.len() == 2,
        19 | 20 | 27 | 29 | 30 | 31 | 34 | 36 | 39 => flag_ok(v),
        23 | 37 => v.len() == 1,
        25 => u16_list_ok(v),
        33 => ipv4_pairs_ok(v),
        43 | 55 | 82 => true,
        46 => v.len() == 1 && node_type_of(v[0]) is Some,
        52 => v.len() == 1 && overload_of(v[0]) is Some,
        53 => v.len() == 1 && message_type_of(v[0]) is Some,
        _ => false,
    }
}

/// `o` is the option that the record with this tag and value stands for.
pub open spec fn option_decodes(tag: u8, v: Seq<u8>, o: DhcpOption) -> bool {
    match o {
        DhcpOption::Pad => tag == PAD && v.len() == 0,
        DhcpOption::End => tag == END && v.len() == 0,
        DhcpOption::SubnetMask(x) => tag == 1 && v.len() == 4 && ipv4_at(x, v, 0),
        DhcpOption::TimeOffset(x) => tag == 2 && v.len() == 4 && x as int == be_i32(v),
        DhcpOption::Router(x) => tag == 3 && ipv4_list_ok(v) && ipv4_list_at(x@, v),
        DhcpOption::TimeServer(x) => tag == 4 && ipv4_list_ok(v) && ipv4_list_at(x@, v),
        DhcpOption::NameServer(x) => tag == 5 && ipv4_list_ok(v) && ipv4_list_at(x@, v),
        DhcpOption::DomainNameServer(x) => tag == 6 && ipv4_list_ok(v) && ipv4_list_at(x@, v),
        DhcpOption::LogServer(x) => tag == 7 && ipv4_list_ok(v) && ipv4_list_at(x@, v),
        DhcpOption::CookieServer(x) => tag == 8 && ipv4_list_ok(v) && ipv4_list_at(x@, v),
        DhcpOption::LprServer(x) => tag == 9 && ipv4_list_ok(v) && ipv4_list_at(x@, v),
        DhcpOption::ImpressServer(x) => tag == 10 && ipv4_list_ok(v) && ipv4_list_at(x@, v),
        DhcpOption::ResourceLocationServer(x) => tag == 11 && ipv4_list_ok(v) && ipv4_list_at(x@, v),
        DhcpOption::HostName(x) => tag == 12 && valid_utf8(v) && x@ == decode_utf8(v),
        DhcpOption::BootFileSize(x) => tag == 13 && v.len() == 2 && x as int == be_u16(v),
        DhcpOption::MeritDumpFile(x) => tag == 14 && valid_utf8(v) && x@ == decode_utf8(v),
        DhcpOption::DomainName(x) => tag == 15 && valid_utf8(v) && x@ == decode_utf8(v),
        DhcpOption::SwapServer(x) => tag == 16 && v.len() == 4 && ipv4_at(x, v, 0),
        DhcpOption::RootPath(x) => tag == 17 && valid_utf8(v) && x@ == decode_utf8(v),
        DhcpOption::ExtensionsPath(x) => tag == 18 && valid_utf8(v) && x@ == decode_utf8(v),
        DhcpOption::IPForwarding(x) => tag == 19 && flag_ok(v) && x,
        DhcpOption::NonLocalSourceRouting(x) => tag == 20 && flag_ok(v) && x,
        DhcpOption::MaxDatagramReassemblySize(x) => tag == 22 && v.len() == 2 && x as int == be_u16(v),
        DhcpOption::DefaultIpTtl(x) => tag == 23 && v.len() == 1 && x == v[0],
        DhcpOption::PathMtuAgingTimeout(x) => tag == 24 && v.len() == 4 && x as int == be_u32(v),
        DhcpOption::PathMtuPlateauTable(x) => tag == 25 && u16_list_ok(v) && u16_list_at(x@, v),
        DhcpOption::InterfaceMtu(x) => tag == 26 && v.len() == 2 && x as int == be_u16(v),
        DhcpOption::AllSubnetsAreLocal(x) => tag == 27 && flag_ok(v) && x,
        DhcpOption::BroadcastAddress(x) => tag == 28 && v.len() == 4 && ipv4_at(x, v, 0),
        DhcpOption::PerformMaskDiscovery(x) => tag == 29 && flag_ok(v) && x,
        DhcpOption::MaskSupplier(x) => tag == 30 && flag_ok(v) && x,
        DhcpOption::PerformRouterDiscovery(x) => tag == 31 && flag_ok(v) && x,
        DhcpOption::RouterSolicitationAddress(x) => tag == 32 && v.len() == 4 && ipv4_at(x, v, 0),
        DhcpOption::StaticRoute(x) => tag == 33 && ipv4_pairs_ok(v) && ipv4_pairs_at(x@, v),
        DhcpOption::TrailerEncapsulation(x) => tag == 34 && flag_ok(v) && x,
        DhcpOption::ArpCacheTimeout(x) => tag == 35 && v.len() == 4 && x as int == be_u32(v),
        DhcpOption::EthernetEncapsulation(x) => tag == 36 && flag_ok(v) && x,
        DhcpOption::TcpDefaultTtl(x) => tag == 37 && v.len() == 1 && x == v[0],
        DhcpOption::TcpKeepaliveInterval(x) => tag == 38 && v.len() == 4 && x as int == be_u32(v),
        DhcpOption::TcpKeepaliveGarbage(x) => tag == 39 && flag_ok(v) && x,
        DhcpOption::NisDomain(x) => tag == 40 && valid_utf8(v) && x@ == decode_utf8(v),
        DhcpOption::NetworkInformationServers(x) => tag == 41 && ipv4_list_ok(v) && ipv4_list_at(x@, v),
        DhcpOption::NtpServers(x) => tag == 42 && ipv4_list_ok(v) && ipv4_list_at(x@, v),
        DhcpOption::VendorExtensions(x) => tag == 43 && x@ == v,
        DhcpOption::NetBiosNameServers(x) => tag == 44 && ipv4_list_ok(v) && ipv4_list_at(x@, v),
        DhcpOption::NetBiosDatagramDistributionServer(x) => tag == 45 && ipv4_list_ok(v) && ipv4_list_at(x@, v),
        DhcpOption::NetBiosNodeType(x) => tag == 46 && v.len() == 1 && node_type_of(v[0]) == Some(x),
        DhcpOption::NetBiosScope(x) => tag == 47 && valid_utf8(v) && x@ == decode_utf8(v),
        DhcpOption::XFontServer(x) => tag == 48 && ipv4_list_ok(v) && ipv4_list_at(x@, v),
        DhcpOption::XDisplayManager(x) => tag == 49 && ipv4_list_ok(v) && ipv4_list_at(x@, v),
        DhcpOption::RequestedIpAddress(x) => tag == 50 && v.len() == 4 && ipv4_at(x, v, 0),
        DhcpOption::IpAddressLeaseTime(x) => tag == 51 && v.len() == 4 && x as int == be_u32(v),
        DhcpOption::OptionOverload(x) => tag == 52 && v.len() == 1 && overload_of(v[0]) == Some(x),
        DhcpOption::MessageType(x) => tag == 53 && v.len() == 1 && message_type_of(v[0]) == Some(x),
        DhcpOption::ServerIdentifier(x) => tag == 54 && v.len() == 4 && ipv4_at(x, v, 0),
        DhcpOption::ParamRequestList(x) => tag == 55 && x@ == v,
        DhcpOption::Message(x) => tag == 56 && valid_utf8(v) && x@ == decode_utf8(v),
        DhcpOption::MaxMessageSize(x) => tag == 57 && v.len() == 2 && x as int == be_u16(v),
        DhcpOption::RelayAgentInformation(x) => tag == 82 && sub_options_of(v, x@),
    }
}

/// Decodes one record from its tag and value.
pub fn decode_option(tag: u8, v: &[u8]) -> (r: Option<DhcpOption>)
    ensures
        r is Some <==> option_accepts(tag, v@),
        r matches Some(o) ==> option_decodes(tag, v@, o),
{
    match tag {
        0 => if v.len() == 0 { Some(DhcpOption::Pad) } else { None },
        255 => if v.len() == 0 { Some(DhcpOption::End) } else { None },
        1 => match read_ipv4(v) { Some(x) => Some(DhcpOption::SubnetMask(x)), None => None },
        2 => match read_i32(v) { Some(x) => Some(DhcpOption::TimeOffset(x)), None => None },
        3 => match read_ipv4_list(v) { Some(x) => Some(DhcpOption::Router(x)), None => None },
        4 => match read_ipv4_list(v) { Some(x) => Some(DhcpOption::TimeServer(x)), None => None },
        5 => match read_ipv4_list(v) { Some(x) => Some(DhcpOption::NameServer(x)), None => None },
        6 => match read_ipv4_list(v) { Some(x) => Some(DhcpOption::DomainNameServer(x)), None => None },
        7 => match read_ipv4_list(v) { Some(x) => Some(DhcpOption::LogServer(x)), None => None },
        8 => match read_ipv4_list(v) { Some(x) => Some(DhcpOption::CookieServer(x)), None => None },
        9 => match read_ipv4_list(v) { Some(x) => Some(DhcpOption::LprServer(x)), None => None },
        10 => match read_ipv4_list(v) { Some(x) => Some(DhcpOption::ImpressServer(x)), None => None },
        11 => match read_ipv4_list(v) { Some(x) => Some(DhcpOption::ResourceLocationServer(x)), None => None },
        12 => match read_text(v) { Some(x) => Some(DhcpOption::HostName(x)), None => None },
        13 => match read_u16(v) { Some(x) => Some(DhcpOption::BootFileSize(x)), None => None },
        14 => match read_text(v) { Some(x) => Some(DhcpOption::MeritDumpFile(x)), None => None },
        15 => match read_text(v) { Some(x) => Some(DhcpOption::DomainName(x)), None => None },
        16 => match read_ipv4(v) { Some(x) => Some(DhcpOption::SwapServer(x)), None => None },
        17 => match read_text(v) { Some(x) => Some(DhcpOption::RootPath(x)), None => None },
        18 => match read_text(v) { Some(x) => Some(DhcpOption::ExtensionsPath(x)), None => None },
        19 => match read_flag(v) { Some(x) => Some(DhcpOption::IPForwarding(x)), None => None },
        20 => match read_flag(v) { Some(x) => Some(DhcpOption::NonLocalSourceRouting(x)), None => None },
        22 => match read_u16(v) { Some(x) => Some(DhcpOption::MaxDatagramReassemblySize(x)), None => None },
        23 => match read_u8(v) { Some(x) => Some(DhcpOption::DefaultIpTtl(x)), None => None },
        24 => match read_u32(v) { Some(x) => Some(DhcpOption::PathMtuAgingTimeout(x)), None => None },
        25 => match read_u16_list(v) { Some(x) => Some(DhcpOption::PathMtuPlateauTable(x)), None => None },
        26 => match read_u16(v) { Some(x) => Some(DhcpOption::InterfaceMtu(x)), None => None },
        27 => match read_flag(v) { Some(x) => Some(DhcpOption::AllSubnetsAreLocal(x)), None => None },
        28 => match read_ipv4(v) { Some(x) => Some(DhcpOption::BroadcastAddress(x)), None => None },
        29 => match read_flag(v) { Some(x) => Some(DhcpOption::PerformMaskDiscovery(x)), None => None },
        30 => match read_flag(v) { Some(x) => Some(DhcpOption::MaskSupplier(x)), None => None },
        31 => match read_flag(v) { Some(x) => Some(DhcpOption::PerformRouterDiscovery(x)), None => None },
        32 => match read_ipv4(v) { Some(x) => Some(DhcpOption::RouterSolicitationAddress(x)), None => None },
        33 => match read_ipv4_pairs(v) { Some(x) => Some(DhcpOption::StaticRoute(x)), None => None },
        34 => match read_flag(v) { Some(x) => Some(DhcpOption::TrailerEncapsulation(x)), None => None },
        35 => match read_u32(v) { Some(x) => Some(DhcpOption::ArpCacheTimeout(x)), None => None },
        36 => match read_flag(v) { Some(x) => Some(DhcpOption::EthernetEncapsulation(x)), None => None },
        37 => match read_u8(v) { Some(x) => Some(DhcpOption::TcpDefaultTtl(x)), None => None },
        38 => match read_u32(v) { Some(x) => Some(DhcpOption::TcpKeepaliveInterval(x)), None => None },
        39 => match read_flag(v) { Some(x) => Some(DhcpOption::TcpKeepaliveGarbage(x)), None => None },
        40 => match read_text(v) { Some(x) => Some(DhcpOption::NisDomain(x)), None => None },
        41 => match read_ipv4_list(v) { Some(x) => Some(DhcpOption::NetworkInformationServers(x)), None => None },
        42 => match read_ipv4_list(v) { Some(x) => Some(DhcpOption::NtpServers(x)), None => None },
        43 => Some(DhcpOption::VendorExtensions(read_bytes(v))),
        44 => match read_ipv4_list(v) { Some(x) => Some(DhcpOption::NetBiosNameServers(x)), None => None },
        45 => match read_ipv4_list(v) { Some(x) => Some(DhcpOption::NetBiosDatagramDistributionServer(x)), None => None },
        46 => match read_node_type(v) { Some(x) => Some(DhcpOption::NetBiosNodeType(x)), None => None },
        47 => match read_text(v) { Some(x) => Some(DhcpOption::NetBiosScope(x)), None => None },
        48 => match read_ipv4_list(v) { Some(x) => Some(DhcpOption::XFontServer(x)), None => None },
        49 => match read_ipv4_list(v) { Some(x) => Some(DhcpOption::XDisplayManager(x)), None => None },
        50 => match read_ipv4(v) { Some(x) => Some(DhcpOption::RequestedIpAddress(x)), None => None },
        51 => match read_u32(v) { Some(x) => Some(DhcpOption::IpAddressLeaseTime(x)), None => None },
        52 => match read_overload(v) { Some(x) => Some(DhcpOption::OptionOverload(x)), None => None },
        53 => match read_message_type(v) { Some(x) => Some(DhcpOption::MessageType(x)), None => None },
        54 => match read_ipv4(v) { Some(x) => Some(DhcpOption::ServerIdentifier(x)), None => None },
        55 => Some(DhcpOption::ParamRequestList(read_bytes(v))),
        56 => match read_text(v) { Some(x) => Some(DhcpOption::Message(x)), None => None },
        57 => match read_u16(v) { Some(x) => Some(DhcpOption::MaxMessageSize(x)), None => None },
        82 => Some(DhcpOption::RelayAgentInformation(parse_sub_options(v))),
        _ => None,
    }
}

} // verus!
