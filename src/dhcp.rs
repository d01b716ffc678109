//! The DHCP client: the message format, its TLV options, and the steps of
//! Discover, Offer, Request and Ack.

use vstd::prelude::*;
use crate::ethernet::{frame_matches, EthernetFrame, EthernetHdr};

use crate::net_util::{
    be16, be32, bytes_of, copy_from, ip_at, lemma_u16_round_trip, lemma_u32_round_trip, push_bytes,
    push_u16_be, push_u32_be, read_u16_be, read_u32_be, u16_be, u32_be, zeros,
};
use crate::ip::set_my_ip;
use crate::stack::NetStack;
use crate::udp::{reply_udp, send_udp, udp_reply_frame, udp_send_frame};


verus! {

/// The constant that follows the fixed fields of every message.
pub const MAGIC_COOKIE: u32 = 0x63825363;

/// Length of the fixed fields, magic cookie included.
pub const DHCP_FIXED_LEN: usize = 240;

/// Length of the option area of the messages this client sends.
pub const DHCP_OPTIONS_LEN: usize = 312;

pub const DHCP_SERVER_PORT: u16 = 67;

pub const DHCP_CLIENT_PORT: u16 = 68;

pub const OPTION_DHCP_MESSAGE_TYPE: u8 = 53;

pub const OPTION_REQUESTED_IP_ADDRESS: u8 = 50;

pub const OPTION_PARAMETER_REQUEST_LIST: u8 = 55;

pub const OPTION_END: u8 = 255;

/// The type byte of a DHCP option.
#[derive(Clone, Copy, Debug, PartialEq, Eq, Structural)]
pub enum DhcpOptionType {
    Pad,
    SubnetMask,
    TimeOffset,
    Router,
    TimeServer,
    NameServer,
    LogServer,
    CookieServer,
    LprServer,
    ImpressServer,
    ResourceLocationServer,
    HostName,
    BootFileSize,
    MeritDumpFile,
    DomainName,
    SwapServer,
    RootPath,
    ExtensionsPath,
    IPForwardingEnableDisable,
    NonLocalSourceRoutingEnableDisable,
    PolicyFilter,
    MaximumDatagramReassemblySize,
    DefaultIpTimeToLive,
    PathMtuAgingTimeout,
    PathMtuPlateauTab,
    InterfaceMtu,
    AllSubnetsAreLocal,
    BroadcastAddress,
    PerformMaskDiscovery,
    MaskSupplier,
    PerformRouterDiscovery,
    RouterSolicitationAddress,
    StaticRoute,
    TrailerEncapsulationOption,
    ARPCacheTimeout,
    EthernetEncapsulation,
    TCPDefaultTtl,
    TCPKeepaliveInterval,
    TCPKeepaliveGarbage,
    NetworkInformationServiceDomain,
    NetworkInformationServers,
    NetworkTimeProtocolNtpServers,
    VendorSpecificInformation,
    NetBIOSOverTcpIpNameServer,
    NetBIOSOverTcpIpDatagramDistributionServer,
    NetBIOSOverTcpIpNodeType,
    NetBIOSOverTcpIpScope,
    XWindowSystemFontServer,
    XWindowSystemDisplayManager,
    RequestedIpAddress,
    IpAddressLeaseTime,
    OptionOverload,
    DhcpMessageType,
    ServerIdentifier,
    ParameterRequestList,
    Message,
    MaximumDhcpMessageSize,
    RenewalT1TimeValue,
    RebindingT2TimeValue,
    VendorClassIdentifier,
    ClientIdentifier,
    NetworkInformationServicePlusDomain,
    NetworkInformationServicePlusServers,
    TftpServerName,
    BootfileName,
    MobileIpHomeAgent,
    SmtpServer,
    Pop3Server,
    NntpServer,
    DefaultWwwServer,
    DefaultFingerProtocolServer,
    DefaultIrcServer,
    StreetTalkServer,
    StreetTalkDirectoryAssistanceServer,
    RelayAgentInformation,
    NovellDirectoryServiceServers,
    NdsTreeName,
    NdsContext,
    TimeZonePosixStyle,
    TimeZoneTzDatabaseStyle,
    DomainSearch,
    ClasslessStaticRoute,
    End,
    /// A type byte none of the others stands for.
    Unknown(u8),
}

/// The option type that the byte `b` stands for.
pub open spec fn dhcp_option_type_of(b: u8) -> DhcpOptionType {
    match b {
        0 => DhcpOptionType::Pad,
        1 => DhcpOptionType::SubnetMask,
        2 => DhcpOptionType::TimeOffset,
        3 => DhcpOptionType::Router,
        4 => DhcpOptionType::TimeServer,
        5 => DhcpOptionType::NameServer,
        7 => DhcpOptionType::LogServer,
        8 => DhcpOptionType::CookieServer,
        9 => DhcpOptionType::LprServer,
        10 => DhcpOptionType::ImpressServer,
        11 => DhcpOptionType::ResourceLocationServer,
        12 => DhcpOptionType::HostName,
        13 => DhcpOptionType::BootFileSize,
        14 => DhcpOptionType::MeritDumpFile,
        15 => DhcpOptionType::DomainName,
        16 => DhcpOptionType::SwapServer,
        17 => DhcpOptionType::RootPath,
        18 => DhcpOptionType::ExtensionsPath,
        19 => DhcpOptionType::IPForwardingEnableDisable,
        20 => DhcpOptionType::NonLocalSourceRoutingEnableDisable,
        21 => DhcpOptionType::PolicyFilter,
        22 => DhcpOptionType::MaximumDatagramReassemblySize,
        23 => DhcpOptionType::DefaultIpTimeToLive,
        24 => DhcpOptionType::PathMtuAgingTimeout,
        25 => DhcpOptionType::PathMtuPlateauTab,
        26 => DhcpOptionType::InterfaceMtu,
        27 => DhcpOptionType::AllSubnetsAreLocal,
        28 => DhcpOptionType::BroadcastAddress,
        29 => DhcpOptionType::PerformMaskDiscovery,
        30 => DhcpOptionType::MaskSupplier,
        31 => DhcpOptionType::PerformRouterDiscovery,
        32 => DhcpOptionType::RouterSolicitationAddress,
        33 => DhcpOptionType::StaticRoute,
        34 => DhcpOptionType::TrailerEncapsulationOption,
        35 => DhcpOptionType::ARPCacheTimeout,
        36 => DhcpOptionType::EthernetEncapsulation,
        37 => DhcpOptionType::TCPDefaultTtl,
        38 => DhcpOptionType::TCPKeepaliveInterval,
        39 => DhcpOptionType::TCPKeepaliveGarbage,
        40 => DhcpOptionType::NetworkInformationServiceDomain,
        41 => DhcpOptionType::NetworkInformationServers,
        42 => DhcpOptionType::NetworkTimeProtocolNtpServers,
        43 => DhcpOptionType::VendorSpecificInformation,
        44 => DhcpOptionType::NetBIOSOverTcpIpNameServer,
        45 => DhcpOptionType::NetBIOSOverTcpIpDatagramDistributionServer,
        46 => DhcpOptionType::NetBIOSOverTcpIpNodeType,
        47 => DhcpOptionType::NetBIOSOverTcpIpScope,
        48 => DhcpOptionType::XWindowSystemFontServer,
        49 => DhcpOptionType::XWindowSystemDisplayManager,
        50 => DhcpOptionType::RequestedIpAddress,
        51 => DhcpOptionType::IpAddressLeaseTime,
        52 => DhcpOptionType::OptionOverload,
        53 => DhcpOptionType::DhcpMessageType,
        54 => DhcpOptionType::ServerIdentifier,
        55 => DhcpOptionType::ParameterRequestList,
        56 => DhcpOptionType::Message,
        57 => DhcpOptionType::MaximumDhcpMessageSize,
        58 => DhcpOptionType::RenewalT1TimeValue,
        59 => DhcpOptionType::RebindingT2TimeValue,
        60 => DhcpOptionType::VendorClassIdentifier,
        61 => DhcpOptionType::ClientIdentifier,
        64 => DhcpOptionType::NetworkInformationServicePlusDomain,
        65 => DhcpOptionType::NetworkInformationServicePlusServers,
        66 => DhcpOptionType::TftpServerName,
        67 => DhcpOptionType::BootfileName,
        68 => DhcpOptionType::MobileIpHomeAgent,
        69 => DhcpOptionType::SmtpServer,
        70 => DhcpOptionType::Pop3Server,
        71 => DhcpOptionType::NntpServer,
        72 => DhcpOptionType::DefaultWwwServer,
        73 => DhcpOptionType::DefaultFingerProtocolServer,
        74 => DhcpOptionType::DefaultIrcServer,
        75 => DhcpOptionType::StreetTalkServer,
        76 => DhcpOptionType::StreetTalkDirectoryAssistanceServer,
        82 => DhcpOptionType::RelayAgentInformation,
        85 => DhcpOptionType::NovellDirectoryServiceServers,
        86 => DhcpOptionType::NdsTreeName,
        87 => DhcpOptionType::NdsContext,
        100 => DhcpOptionType::TimeZonePosixStyle,
        101 => DhcpOptionType::TimeZoneTzDatabaseStyle,
        119 => DhcpOptionType::DomainSearch,
        121 => DhcpOptionType::ClasslessStaticRoute,
        255 => DhcpOptionType::End,
        _ => DhcpOptionType::Unknown(b),
    }
}

impl DhcpOptionType {
    pub open spec fn spec_u8(self) -> u8 {
        match self {
            DhcpOptionType::Pad => 0,
            DhcpOptionType::SubnetMask => 1,
            DhcpOptionType::TimeOffset => 2,
            DhcpOptionType::Router => 3,
            DhcpOptionType::TimeServer => 4,
            DhcpOptionType::NameServer => 5,
            DhcpOptionType::LogServer => 7,
            DhcpOptionType::CookieServer => 8,
            DhcpOptionType::LprServer => 9,
            DhcpOptionType::ImpressServer => 10,
            DhcpOptionType::ResourceLocationServer => 11,
            DhcpOptionType::HostName => 12,
            DhcpOptionType::BootFileSize => 13,
            DhcpOptionType::MeritDumpFile => 14,
            DhcpOptionType::DomainName => 15,
            DhcpOptionType::SwapServer => 16,
            DhcpOptionType::RootPath => 17,
            DhcpOptionType::ExtensionsPath => 18,
            DhcpOptionType::IPForwardingEnableDisable => 19,
            DhcpOptionType::NonLocalSourceRoutingEnableDisable => 20,
            DhcpOptionType::PolicyFilter => 21,
            DhcpOptionType::MaximumDatagramReassemblySize => 22,
            DhcpOptionType::DefaultIpTimeToLive => 23,
            DhcpOptionType::PathMtuAgingTimeout => 24,
            DhcpOptionType::PathMtuPlateauTab => 25,
            DhcpOptionType::InterfaceMtu => 26,
            DhcpOptionType::AllSubnetsAreLocal => 27,
            DhcpOptionType::BroadcastAddress => 28,
            DhcpOptionType::PerformMaskDiscovery => 29,
            DhcpOptionType::MaskSupplier => 30,
            DhcpOptionType::PerformRouterDiscovery => 31,
            DhcpOptionType::RouterSolicitationAddress => 32,
            DhcpOptionType::StaticRoute => 33,
            DhcpOptionType::TrailerEncapsulationOption => 34,
            DhcpOptionType::ARPCacheTimeout => 35,
            DhcpOptionType::EthernetEncapsulation => 36,
            DhcpOptionType::TCPDefaultTtl => 37,
            DhcpOptionType::TCPKeepaliveInterval => 38,
            DhcpOptionType::TCPKeepaliveGarbage => 39,
            DhcpOptionType::NetworkInformationServiceDomain => 40,
            DhcpOptionType::NetworkInformationServers => 41,
            DhcpOptionType::NetworkTimeProtocolNtpServers => 42,
            DhcpOptionType::VendorSpecificInformation => 43,
            DhcpOptionType::NetBIOSOverTcpIpNameServer => 44,
            DhcpOptionType::NetBIOSOverTcpIpDatagramDistributionServer => 45,
            DhcpOptionType::NetBIOSOverTcpIpNodeType => 46,
            DhcpOptionType::NetBIOSOverTcpIpScope => 47,
            DhcpOptionType::XWindowSystemFontServer => 48,
            DhcpOptionType::XWindowSystemDisplayManager => 49,
            DhcpOptionType::RequestedIpAddress => 50,
            DhcpOptionType::IpAddressLeaseTime => 51,
            DhcpOptionType::OptionOverload => 52,
            DhcpOptionType::DhcpMessageType => 53,
            DhcpOptionType::ServerIdentifier => 54,
            DhcpOptionType::ParameterRequestList => 55,
            DhcpOptionType::Message => 56,
            DhcpOptionType::MaximumDhcpMessageSize => 57,
            DhcpOptionType::RenewalT1TimeValue => 58,
            DhcpOptionType::RebindingT2TimeValue => 59,
            DhcpOptionType::VendorClassIdentifier => 60,
            DhcpOptionType::ClientIdentifier => 61,
            DhcpOptionType::NetworkInformationServicePlusDomain => 64,
            DhcpOptionType::NetworkInformationServicePlusServers => 65,
            DhcpOptionType::TftpServerName => 66,
            DhcpOptionType::BootfileName => 67,
            DhcpOptionType::MobileIpHomeAgent => 68,
            DhcpOptionType::SmtpServer => 69,
            DhcpOptionType::Pop3Server => 70,
            DhcpOptionType::NntpServer => 71,
            DhcpOptionType::DefaultWwwServer => 72,
            DhcpOptionType::DefaultFingerProtocolServer => 73,
            DhcpOptionType::DefaultIrcServer => 74,
            DhcpOptionType::StreetTalkServer => 75,
            DhcpOptionType::StreetTalkDirectoryAssistanceServer => 76,
            DhcpOptionType::RelayAgentInformation => 82,
            DhcpOptionType::NovellDirectoryServiceServers => 85,
            DhcpOptionType::NdsTreeName => 86,
            DhcpOptionType::NdsContext => 87,
            DhcpOptionType::TimeZonePosixStyle => 100,
            DhcpOptionType::TimeZoneTzDatabaseStyle => 101,
            DhcpOptionType::DomainSearch => 119,
            DhcpOptionType::ClasslessStaticRoute => 121,
            DhcpOptionType::End => 255,
            DhcpOptionType::Unknown(b) => b,
        }
    }

    /// `Unknown` holds only bytes that no other variant stands for.
    pub open spec fn well_formed(self) -> bool {
        dhcp_option_type_of(self.spec_u8()) == self
    }

    pub fn get_u8(&self) -> (r: u8)
        ensures
            r == self.spec_u8(),
    {
        match self {
            DhcpOptionType::Pad => 0,
            DhcpOptionType::SubnetMask => 1,
            DhcpOptionType::TimeOffset => 2,
            DhcpOptionType::Router => 3,
            DhcpOptionType::TimeServer => 4,
            DhcpOptionType::NameServer => 5,
            DhcpOptionType::LogServer => 7,
            DhcpOptionType::CookieServer => 8,
            DhcpOptionType::LprServer => 9,
            DhcpOptionType::ImpressServer => 10,
            DhcpOptionType::ResourceLocationServer => 11,
            DhcpOptionType::HostName => 12,
            DhcpOptionType::BootFileSize => 13,
            DhcpOptionType::MeritDumpFile => 14,
            DhcpOptionType::DomainName => 15,
            DhcpOptionType::SwapServer => 16,
            DhcpOptionType::RootPath => 17,
            DhcpOptionType::ExtensionsPath => 18,
            DhcpOptionType::IPForwardingEnableDisable => 19,
            DhcpOptionType::NonLocalSourceRoutingEnableDisable => 20,
            DhcpOptionType::PolicyFilter => 21,
            DhcpOptionType::MaximumDatagramReassemblySize => 22,
            DhcpOptionType::DefaultIpTimeToLive => 23,
            DhcpOptionType::PathMtuAgingTimeout => 24,
            DhcpOptionType::PathMtuPlateauTab => 25,
            DhcpOptionType::InterfaceMtu => 26,
            DhcpOptionType::AllSubnetsAreLocal => 27,
            DhcpOptionType::BroadcastAddress => 28,
            DhcpOptionType::PerformMaskDiscovery => 29,
            DhcpOptionType::MaskSupplier => 30,
            DhcpOptionType::PerformRouterDiscovery => 31,
            DhcpOptionType::RouterSolicitationAddress => 32,
            DhcpOptionType::StaticRoute => 33,
            DhcpOptionType::TrailerEncapsulationOption => 34,
            DhcpOptionType::ARPCacheTimeout => 35,
            DhcpOptionType::EthernetEncapsulation => 36,
            DhcpOptionType::TCPDefaultTtl => 37,
            DhcpOptionType::TCPKeepaliveInterval => 38,
            DhcpOptionType::TCPKeepaliveGarbage => 39,
            DhcpOptionType::NetworkInformationServiceDomain => 40,
            DhcpOptionType::NetworkInformationServers => 41,
            DhcpOptionType::NetworkTimeProtocolNtpServers => 42,
            DhcpOptionType::VendorSpecificInformation => 43,
            DhcpOptionType::NetBIOSOverTcpIpNameServer => 44,
            DhcpOptionType::NetBIOSOverTcpIpDatagramDistributionServer => 45,
            DhcpOptionType::NetBIOSOverTcpIpNodeType => 46,
            DhcpOptionType::NetBIOSOverTcpIpScope => 47,
            DhcpOptionType::XWindowSystemFontServer => 48,
            DhcpOptionType::XWindowSystemDisplayManager => 49,
            DhcpOptionType::RequestedIpAddress => 50,
            DhcpOptionType::IpAddressLeaseTime => 51,
            DhcpOptionType::OptionOverload => 52,
            DhcpOptionType::DhcpMessageType => 53,
            DhcpOptionType::ServerIdentifier => 54,
            DhcpOptionType::ParameterRequestList => 55,
            DhcpOptionType::Message => 56,
            DhcpOptionType::MaximumDhcpMessageSize => 57,
            DhcpOptionType::RenewalT1TimeValue => 58,
            DhcpOptionType::RebindingT2TimeValue => 59,
            DhcpOptionType::VendorClassIdentifier => 60,
            DhcpOptionType::ClientIdentifier => 61,
            DhcpOptionType::NetworkInformationServicePlusDomain => 64,
            DhcpOptionType::NetworkInformationServicePlusServers => 65,
            DhcpOptionType::TftpServerName => 66,
            DhcpOptionType::BootfileName => 67,
            DhcpOptionType::MobileIpHomeAgent => 68,
            DhcpOptionType::SmtpServer => 69,
            DhcpOptionType::Pop3Server => 70,
            DhcpOptionType::NntpServer => 71,
            DhcpOptionType::DefaultWwwServer => 72,
            DhcpOptionType::DefaultFingerProtocolServer => 73,
            DhcpOptionType::DefaultIrcServer => 74,
            DhcpOptionType::StreetTalkServer => 75,
            DhcpOptionType::StreetTalkDirectoryAssistanceServer => 76,
            DhcpOptionType::RelayAgentInformation => 82,
            DhcpOptionType::NovellDirectoryServiceServers => 85,
            DhcpOptionType::NdsTreeName => 86,
            DhcpOptionType::NdsContext => 87,
            DhcpOptionType::TimeZonePosixStyle => 100,
            DhcpOptionType::TimeZoneTzDatabaseStyle => 101,
            DhcpOptionType::DomainSearch => 119,
            DhcpOptionType::ClasslessStaticRoute => 121,
            DhcpOptionType::End => 255,
            DhcpOptionType::Unknown(b) => *b,
        }
    }

    pub fn parse(dhcp_option_type: u8) -> (r: DhcpOptionType)
        ensures
            r == dhcp_option_type_of(dhcp_option_type),
    {
        match dhcp_option_type {
            0 => DhcpOptionType::Pad,
            1 => DhcpOptionType::SubnetMask,
            2 => DhcpOptionType::TimeOffset,
            3 => DhcpOptionType::Router,
            4 => DhcpOptionType::TimeServer,
            5 => DhcpOptionType::NameServer,
            7 => DhcpOptionType::LogServer,
            8 => DhcpOptionType::CookieServer,
            9 => DhcpOptionType::LprServer,
            10 => DhcpOptionType::ImpressServer,
            11 => DhcpOptionType::ResourceLocationServer,
            12 => DhcpOptionType::HostName,
            13 => DhcpOptionType::BootFileSize,
            14 => DhcpOptionType::MeritDumpFile,
            15 => DhcpOptionType::DomainName,
            16 => DhcpOptionType::SwapServer,
            17 => DhcpOptionType::RootPath,
            18 => DhcpOptionType::ExtensionsPath,
            19 => DhcpOptionType::IPForwardingEnableDisable,
            20 => DhcpOptionType::NonLocalSourceRoutingEnableDisable,
            21 => DhcpOptionType::PolicyFilter,
            22 => DhcpOptionType::MaximumDatagramReassemblySize,
            23 => DhcpOptionType::DefaultIpTimeToLive,
            24 => DhcpOptionType::PathMtuAgingTimeout,
            25 => DhcpOptionType::PathMtuPlateauTab,
            26 => DhcpOptionType::InterfaceMtu,
            27 => DhcpOptionType::AllSubnetsAreLocal,
            28 => DhcpOptionType::BroadcastAddress,
            29 => DhcpOptionType::PerformMaskDiscovery,
            30 => DhcpOptionType::MaskSupplier,
            31 => DhcpOptionType::PerformRouterDiscovery,
            32 => DhcpOptionType::RouterSolicitationAddress,
            33 => DhcpOptionType::StaticRoute,
            34 => DhcpOptionType::TrailerEncapsulationOption,
            35 => DhcpOptionType::ARPCacheTimeout,
            36 => DhcpOptionType::EthernetEncapsulation,
            37 => DhcpOptionType::TCPDefaultTtl,
            38 => DhcpOptionType::TCPKeepaliveInterval,
            39 => DhcpOptionType::TCPKeepaliveGarbage,
            40 => DhcpOptionType::NetworkInformationServiceDomain,
            41 => DhcpOptionType::NetworkInformationServers,
            42 => DhcpOptionType::NetworkTimeProtocolNtpServers,
            43 => DhcpOptionType::VendorSpecificInformation,
            44 => DhcpOptionType::NetBIOSOverTcpIpNameServer,
            45 => DhcpOptionType::NetBIOSOverTcpIpDatagramDistributionServer,
            46 => DhcpOptionType::NetBIOSOverTcpIpNodeType,
            47 => DhcpOptionType::NetBIOSOverTcpIpScope,
            48 => DhcpOptionType::XWindowSystemFontServer,
            49 => DhcpOptionType::XWindowSystemDisplayManager,
            50 => DhcpOptionType::RequestedIpAddress,
            51 => DhcpOptionType::IpAddressLeaseTime,
            52 => DhcpOptionType::OptionOverload,
            53 => DhcpOptionType::DhcpMessageType,
            54 => DhcpOptionType::ServerIdentifier,
            55 => DhcpOptionType::ParameterRequestList,
            56 => DhcpOptionType::Message,
            57 => DhcpOptionType::MaximumDhcpMessageSize,
            58 => DhcpOptionType::RenewalT1TimeValue,
            59 => DhcpOptionType::RebindingT2TimeValue,
            60 => DhcpOptionType::VendorClassIdentifier,
            61 => DhcpOptionType::ClientIdentifier,
            64 => DhcpOptionType::NetworkInformationServicePlusDomain,
            65 => DhcpOptionType::NetworkInformationServicePlusServers,
            66 => DhcpOptionType::TftpServerName,
            67 => DhcpOptionType::BootfileName,
            68 => DhcpOptionType::MobileIpHomeAgent,
            69 => DhcpOptionType::SmtpServer,
            70 => DhcpOptionType::Pop3Server,
            71 => DhcpOptionType::NntpServer,
            72 => DhcpOptionType::DefaultWwwServer,
            73 => DhcpOptionType::DefaultFingerProtocolServer,
            74 => DhcpOptionType::DefaultIrcServer,
            75 => DhcpOptionType::StreetTalkServer,
            76 => DhcpOptionType::StreetTalkDirectoryAssistanceServer,
            82 => DhcpOptionType::RelayAgentInformation,
            85 => DhcpOptionType::NovellDirectoryServiceServers,
            86 => DhcpOptionType::NdsTreeName,
            87 => DhcpOptionType::NdsContext,
            100 => DhcpOptionType::TimeZonePosixStyle,
            101 => DhcpOptionType::TimeZoneTzDatabaseStyle,
            119 => DhcpOptionType::DomainSearch,
            121 => DhcpOptionType::ClasslessStaticRoute,
            255 => DhcpOptionType::End,
            _ => DhcpOptionType::Unknown(dhcp_option_type),
        }
    }
}

/// The operation of a message.
#[derive(Clone, Copy, Debug, PartialEq, Eq, Structural)]
pub enum DhcpOp {
    Request,
    Reply,
    /// An operation byte none of the others stands for.
    Unknown(u8),
}

pub open spec fn dhcp_op_of(b: u8) -> DhcpOp {
    if b == 1 {
        DhcpOp::Request
    } else if b == 2 {
        DhcpOp::Reply
    } else {
        DhcpOp::Unknown(b)
    }
}

impl DhcpOp {
    pub open spec fn spec_u8(self) -> u8 {
        match self {
            DhcpOp::Request => 1,
            DhcpOp::Reply => 2,
            DhcpOp::Unknown(b) => b,
        }
    }

    pub open spec fn well_formed(self) -> bool {
        dhcp_op_of(self.spec_u8()) == self
    }

    pub fn get_u8(&self) -> (r: u8)
        ensures
            r == self.spec_u8(),
    {
        match self {
            DhcpOp::Request => 1,
            DhcpOp::Reply => 2,
            DhcpOp::Unknown(b) => *b,
        }
    }

    pub fn parse(dhcp_op: u8) -> (r: DhcpOp)
        ensures
            r == dhcp_op_of(dhcp_op),
    {
        match dhcp_op {
            1 => DhcpOp::Request,
            2 => DhcpOp::Reply,
            _ => DhcpOp::Unknown(dhcp_op),
        }
    }
}

/// The hardware type of a message.
#[derive(Clone, Copy, Debug, PartialEq, Eq, Structural)]
pub enum DhcpHardType {
    Ethernet,
    /// Any hardware type but Ethernet.
    Other(u8),
}

pub open spec fn dhcp_hard_type_of(b: u8) -> DhcpHardType {
    if b == 1 {
        DhcpHardType::Ethernet
    } else {
        DhcpHardType::Other(b)
    }
}

impl DhcpHardType {
    pub open spec fn spec_u8(self) -> u8 {
        match self {
            DhcpHardType::Ethernet => 1,
            DhcpHardType::Other(b) => b,
        }
    }

    pub open spec fn well_formed(self) -> bool {
        dhcp_hard_type_of(self.spec_u8()) == self
    }

    pub fn get_u8(&self) -> (r: u8)
        ensures
            r == self.spec_u8(),
    {
        match self {
            DhcpHardType::Ethernet => 1,
            DhcpHardType::Other(b) => *b,
        }
    }

    pub fn parse(dhcp_hard_type: u8) -> (r: DhcpHardType)
        ensures
            r == dhcp_hard_type_of(dhcp_hard_type),
    {
        match dhcp_hard_type {
            1 => DhcpHardType::Ethernet,
            _ => DhcpHardType::Other(dhcp_hard_type),
        }
    }
}

/// The hardware address length of a message.
#[derive(Clone, Copy, Debug, PartialEq, Eq, Structural)]
pub enum DhcpHardwareLen {
    Ethernet,
    /// Any length but Ethernet's six bytes.
    Other(u8),
}

pub open spec fn dhcp_hardware_len_of(b: u8) -> DhcpHardwareLen {
    if b == 6 {
        DhcpHardwareLen::Ethernet
    } else {
        DhcpHardwareLen::Other(b)
    }
}

impl DhcpHardwareLen {
    pub open spec fn spec_u8(self) -> u8 {
        match self {
            DhcpHardwareLen::Ethernet => 6,
            DhcpHardwareLen::Other(b) => b,
        }
    }

    pub open spec fn well_formed(self) -> bool {
        dhcp_hardware_len_of(self.spec_u8()) == self
    }

    pub fn get_u8(&self) -> (r: u8)
        ensures
            r == self.spec_u8(),
    {
        match self {
            DhcpHardwareLen::Ethernet => 6,
            DhcpHardwareLen::Other(b) => *b,
        }
    }

    pub fn parse(dhcp_hard_len: u8) -> (r: DhcpHardwareLen)
        ensures
            r == dhcp_hardware_len_of(dhcp_hard_len),
    {
        match dhcp_hard_len {
            6 => DhcpHardwareLen::Ethernet,
            _ => DhcpHardwareLen::Other(dhcp_hard_len),
        }
    }
}

/// The flags word of a message.
#[derive(Clone, Copy, Debug, PartialEq, Eq, Structural)]
pub enum DhcpFlags {
    UniCasts,
    BroadCasts,
    /// A flags word none of the others stands for.
    Unknown(u16),
}

pub open spec fn dhcp_flags_of(w: u16) -> DhcpFlags {
    if w == 0 {
        DhcpFlags::UniCasts
    } else if w == 1 {
        DhcpFlags::BroadCasts
    } else {
        DhcpFlags::Unknown(w)
    }
}

impl DhcpFlags {
    pub open spec fn spec_u16(self) -> u16 {
        match self {
            DhcpFlags::UniCasts => 0,
            DhcpFlags::BroadCasts => 1,
            DhcpFlags::Unknown(w) => w,
        }
    }

    pub open spec fn well_formed(self) -> bool {
        dhcp_flags_of(self.spec_u16()) == self
    }

    pub fn get_u16(&self) -> (r: u16)
        ensures
            r == self.spec_u16(),
    {
        match self {
            DhcpFlags::UniCasts => 0,
            DhcpFlags::BroadCasts => 1,
            DhcpFlags::Unknown(w) => *w,
        }
    }

    pub fn parse(flags: u16) -> (r: DhcpFlags)
        ensures
            r == dhcp_flags_of(flags),
    {
        match flags {
            0 => DhcpFlags::UniCasts,
            1 => DhcpFlags::BroadCasts,
            _ => DhcpFlags::Unknown(flags),
        }
    }
}

/// The value of the DHCP-message-type option.
#[derive(Clone, Copy, Debug, PartialEq, Eq, Structural)]
pub enum DhcpMessageType {
    Discover,
    Offer,
    Request,
    AcknowledgementAck,
    AcknowledgementNak,
    /// A message type none of the others stands for.
    Unknown(u8),
}

pub open spec fn dhcp_message_type_of(b: u8) -> DhcpMessageType {
    if b == 1 {
        DhcpMessageType::Discover
    } else if b == 2 {
        DhcpMessageType::Offer
    } else if b == 3 {
        DhcpMessageType::Request
    } else if b == 5 {
        DhcpMessageType::AcknowledgementAck
    } else if b == 6 {
        DhcpMessageType::AcknowledgementNak
    } else {
        DhcpMessageType::Unknown(b)
    }
}

impl DhcpMessageType {
    pub open spec fn spec_u8(self) -> u8 {
        match self {
            DhcpMessageType::Discover => 1,
            DhcpMessageType::Offer => 2,
            DhcpMessageType::Request => 3,
            DhcpMessageType::AcknowledgementAck => 5,
            DhcpMessageType::AcknowledgementNak => 6,
            DhcpMessageType::Unknown(b) => b,
        }
    }

    pub fn get_u8(&self) -> (r: u8)
        ensures
            r == self.spec_u8(),
    {
        match self {
            DhcpMessageType::Discover => 1,
            DhcpMessageType::Offer => 2,
            DhcpMessageType::Request => 3,
            DhcpMessageType::AcknowledgementAck => 5,
            DhcpMessageType::AcknowledgementNak => 6,
            DhcpMessageType::Unknown(b) => *b,
        }
    }

    pub fn parse(dhcp_message_type: u8) -> (r: DhcpMessageType)
        ensures
            r == dhcp_message_type_of(dhcp_message_type),
    {
        match dhcp_message_type {
            1 => DhcpMessageType::Discover,
            2 => DhcpMessageType::Offer,
            3 => DhcpMessageType::Request,
            5 => DhcpMessageType::AcknowledgementAck,
            6 => DhcpMessageType::AcknowledgementNak,
            _ => DhcpMessageType::Unknown(dhcp_message_type),
        }
    }
}

/// One TLV option: type, length, value.
pub struct DhcpOption {
    pub option_type: DhcpOptionType,
    pub length: u8,
    pub value: Vec<u8>,
}

impl DhcpOption {
    /// `length` counts the bytes of `value`.
    pub open spec fn wf(&self) -> bool {
        self.length as int == self.value@.len()
    }

    /// The option on the wire.
    pub open spec fn spec_bytes(&self) -> Seq<u8> {
        seq![self.option_type.spec_u8(), self.length] + self.value@
    }

    /// An option of type `option_type` holding `value`.
    pub fn new(option_type: DhcpOptionType, value: Vec<u8>) -> (r: DhcpOption)
        requires
            value@.len() <= 255,
        ensures
            r.wf(),
            r.option_type == option_type,
            r.value@ == value@,
    {
        let length = value.len() as u8;
        DhcpOption { option_type, length, value }
    }

    /// Bytes the option takes on the wire.
    pub fn len(&self) -> (r: usize)
        ensures
            r == 2 + self.length,
    {
        1 + 1 + self.length as usize
    }

    /// The option as bytes for the wire.
    pub fn to_slice(&self) -> (r: Vec<u8>)
        ensures
            r@ == self.spec_bytes(),
    {
        let mut v: Vec<u8> = Vec::new();
        v.push(self.option_type.get_u8());
        v.push(self.length);
        push_bytes(&mut v, self.value.as_slice());
        proof {
            assert(v@ =~= self.spec_bytes());
        }
        v
    }
}

/// A DHCP message.
pub struct Dhcp {
    pub opcode: DhcpOp,
    pub htype: DhcpHardType,
    pub hlen: DhcpHardwareLen,
    pub hops: u8,
    pub xid: u32,
    pub secs: u16,
    pub flags: DhcpFlags,
    pub ciaddr: [u8; 4],
    pub yiaddr: [u8; 4],
    pub siaddr: [u8; 4],
    pub giaddr: [u8; 4],
    pub chaddr: [u8; 16],
    pub sname: [u8; 64],
    pub file: [u8; 128],
    pub magic_cookie: u32,
    pub options: Vec<u8>,
}

/// What a `Dhcp` holds, with its options as a sequence.
pub struct DhcpPacket {
    pub opcode: DhcpOp,
    pub htype: DhcpHardType,
    pub hlen: DhcpHardwareLen,
    pub hops: u8,
    pub xid: u32,
    pub secs: u16,
    pub flags: DhcpFlags,
    pub ciaddr: [u8; 4],
    pub yiaddr: [u8; 4],
    pub siaddr: [u8; 4],
    pub giaddr: [u8; 4],
    pub chaddr: [u8; 16],
    pub sname: [u8; 64],
    pub file: [u8; 128],
    pub magic_cookie: u32,
    pub options: Seq<u8>,
}

impl View for Dhcp {
    type V = DhcpPacket;

    open spec fn view(&self) -> DhcpPacket {
        DhcpPacket {
            opcode: self.opcode,
            htype: self.htype,
            hlen: self.hlen,
            hops: self.hops,
            xid: self.xid,
            secs: self.secs,
            flags: self.flags,
            ciaddr: self.ciaddr,
            yiaddr: self.yiaddr,
            siaddr: self.siaddr,
            giaddr: self.giaddr,
            chaddr: self.chaddr,
            sname: self.sname,
            file: self.file,
            magic_cookie: self.magic_cookie,
            options: self.options@,
        }
    }
}

/// `n` zero bytes.
pub open spec fn zero_seq(n: nat) -> Seq<u8> {
    Seq::new(n, |i: int| 0u8)
}

/// A message on the wire, field by field.
pub open spec fn dhcp_wire(
    op: u8,
    htype: u8,
    hlen: u8,
    hops: u8,
    xid: u32,
    secs: u16,
    flags: u16,
    ciaddr: Seq<u8>,
    yiaddr: Seq<u8>,
    siaddr: Seq<u8>,
    giaddr: Seq<u8>,
    chaddr: Seq<u8>,
    sname: Seq<u8>,
    file: Seq<u8>,
    magic_cookie: u32,
    options: Seq<u8>,
) -> Seq<u8> {
    seq![op, htype, hlen, hops] + u32_be(xid) + u16_be(secs) + u16_be(flags) + ciaddr + yiaddr
        + siaddr + giaddr + chaddr + sname + file + u32_be(magic_cookie) + options
}

/// The TLV scan for the DHCP-message-type option from offset `i`: type
/// byte, length byte, value, repeated until End or the end of the area.
pub open spec fn message_type_from(opts: Seq<u8>, i: nat) -> Option<u8>
    decreases opts.len() - i,
{
    if i >= opts.len() {
        None
    } else if opts[i as int] == OPTION_END {
        None
    } else if opts[i as int] == OPTION_DHCP_MESSAGE_TYPE {
        if i + 2 < opts.len() {
            Some(opts[i + 2int])
        } else {
            None
        }
    } else if i + 1 >= opts.len() || i + 2 + opts[i + 1int] >= opts.len() {
        None
    } else {
        message_type_from(opts, i + 2 + opts[i + 1int] as nat)
    }
}

impl DhcpPacket {
    /// The message on the wire.
    pub open spec fn bytes(self) -> Seq<u8> {
        dhcp_wire(
            self.opcode.spec_u8(),
            self.htype.spec_u8(),
            self.hlen.spec_u8(),
            self.hops,
            self.xid,
            self.secs,
            self.flags.spec_u16(),
            self.ciaddr@,
            self.yiaddr@,
            self.siaddr@,
            self.giaddr@,
            self.chaddr@,
            self.sname@,
            self.file@,
            self.magic_cookie,
            self.options,
        )
    }

    /// A message that reads back as itself.
    pub open spec fn well_formed(self) -> bool {
        &&& self.opcode.well_formed()
        &&& self.htype.well_formed()
        &&& self.hlen.well_formed()
        &&& self.flags.well_formed()
    }

    /// The type the DHCP-message-type option gives, if the options hold one.
    pub open spec fn message_type(self) -> Option<DhcpMessageType> {
        match message_type_from(self.options, 0) {
            Some(b) => Some(dhcp_message_type_of(b)),
            None => None,
        }
    }
}

/// Whether `d` holds the fields read from the bytes `b`.
pub open spec fn dhcp_read_from(b: Seq<u8>, d: DhcpPacket) -> bool {
    &&& b.len() >= DHCP_FIXED_LEN
    &&& d.opcode == dhcp_op_of(b[0])
    &&& d.htype == dhcp_hard_type_of(b[1])
    &&& d.hlen == dhcp_hardware_len_of(b[2])
    &&& d.hops == b[3]
    &&& d.xid == be32(b[4], b[5], b[6], b[7])
    &&& d.secs == be16(b[8], b[9])
    &&& d.flags == dhcp_flags_of(be16(b[10], b[11]))
    &&& d.ciaddr@ == b.subrange(12, 16)
    &&& d.yiaddr@ == b.subrange(16, 20)
    &&& d.siaddr@ == b.subrange(20, 24)
    &&& d.giaddr@ == b.subrange(24, 28)
    &&& d.chaddr@ == b.subrange(28, 44)
    &&& d.sname@ == b.subrange(44, 108)
    &&& d.file@ == b.subrange(108, 236)
    &&& d.magic_cookie == be32(b[236], b[237], b[238], b[239])
    &&& d.options == b.subrange(240, b.len() as int)
}

/// What parsing the bytes `b` as a DHCP message gives.
pub open spec fn parse_dhcp(b: Seq<u8>) -> Option<DhcpPacket> {
    if b.len() >= DHCP_FIXED_LEN {
        Some(choose|d: DhcpPacket| dhcp_read_from(b, d))
    } else {
        None
    }
}

/// Parsing is a function of the bytes: two readings of one buffer agree.
pub proof fn lemma_dhcp_parse_deterministic(b: Seq<u8>, d: DhcpPacket, e: DhcpPacket)
    requires
        dhcp_read_from(b, d),
        dhcp_read_from(b, e),
    ensures
        d == e,
{
    assert(d.ciaddr =~= e.ciaddr);
    assert(d.yiaddr =~= e.yiaddr);
    assert(d.siaddr =~= e.siaddr);
    assert(d.giaddr =~= e.giaddr);
    assert(d.chaddr =~= e.chaddr);
    assert(d.sname =~= e.sname);
    assert(d.file =~= e.file);
}

/// A well-formed message read back from its bytes is the message written.
pub proof fn lemma_dhcp_round_trip(d: DhcpPacket)
    requires
        d.well_formed(),
    ensures
        parse_dhcp(d.bytes()) == Some(d),
{
    let b = d.bytes();
    let x = u32_be(d.xid);
    let c = u32_be(d.magic_cookie);
    lemma_u32_round_trip(d.xid);
    lemma_u32_round_trip(d.magic_cookie);
    lemma_u16_round_trip(d.secs);
    lemma_u16_round_trip(d.flags.spec_u16());
    assert(b[4] == x[0] && b[5] == x[1] && b[6] == x[2] && b[7] == x[3]);
    assert(b[8] == u16_be(d.secs)[0] && b[9] == u16_be(d.secs)[1]);
    assert(b[10] == u16_be(d.flags.spec_u16())[0] && b[11] == u16_be(d.flags.spec_u16())[1]);
    assert(b.subrange(12, 16) =~= d.ciaddr@);
    assert(b.subrange(16, 20) =~= d.yiaddr@);
    assert(b.subrange(20, 24) =~= d.siaddr@);
    assert(b.subrange(24, 28) =~= d.giaddr@);
    assert(b.subrange(28, 44) =~= d.chaddr@);
    assert(b.subrange(44, 108) =~= d.sname@);
    assert(b.subrange(108, 236) =~= d.file@);
    assert(b[236] == c[0] && b[237] == c[1] && b[238] == c[2] && b[239] == c[3]);
    assert(b.subrange(240, b.len() as int) =~= d.options);
    assert(dhcp_read_from(b, d));
    let e = choose|e: DhcpPacket| dhcp_read_from(b, e);
    lemma_dhcp_parse_deterministic(b, d, e);
}

/// The options of a Discover: message type Discover, requested address
/// 192.168.56.103, parameter request list (subnet mask, router, domain
/// name, DNS server), End, then zeros to fill the option area.
pub open spec fn discover_options() -> Seq<u8> {
    seq![
        OPTION_DHCP_MESSAGE_TYPE, 1u8, 1u8,
        OPTION_REQUESTED_IP_ADDRESS, 4u8, 192u8, 168u8, 56u8, 103u8,
        OPTION_PARAMETER_REQUEST_LIST, 4u8, 1u8, 3u8, 15u8, 6u8,
        OPTION_END, 0u8,
    ] + zero_seq(295)
}

/// The options of a Request for the address `ip`: message type Request,
/// requested address `ip`, End, then zeros to fill the option area.
pub open spec fn request_options(ip: Seq<u8>) -> Seq<u8> {
    seq![OPTION_DHCP_MESSAGE_TYPE, 1u8, 3u8, OPTION_REQUESTED_IP_ADDRESS, 4u8] + ip + seq![
        OPTION_END,
        0u8,
    ] + zero_seq(301)
}

/// Whether `n` is the Request this client makes of the Offer `o`: opcode
/// Request, client, offered and gateway addresses zero, the Request options
/// for the offered address, every other field kept.
pub open spec fn is_request_for(n: DhcpPacket, o: DhcpPacket) -> bool {
    &&& n.opcode == DhcpOp::Request
    &&& n.ciaddr@ == zero_seq(4)
    &&& n.yiaddr@ == zero_seq(4)
    &&& n.giaddr@ == zero_seq(4)
    &&& n.options == request_options(o.yiaddr@)
    &&& n.htype == o.htype
    &&& n.hlen == o.hlen
    &&& n.hops == o.hops
    &&& n.xid == o.xid
    &&& n.secs == o.secs
    &&& n.flags == o.flags
    &&& n.siaddr == o.siaddr
    &&& n.chaddr == o.chaddr
    &&& n.sname == o.sname
    &&& n.file == o.file
    &&& n.magic_cookie == o.magic_cookie
}

/// The bytes of the Request this client makes of the Offer `o`.
pub open spec fn request_bytes(o: DhcpPacket) -> Seq<u8> {
    dhcp_wire(
        DhcpOp::Request.spec_u8(),
        o.htype.spec_u8(),
        o.hlen.spec_u8(),
        o.hops,
        o.xid,
        o.secs,
        o.flags.spec_u16(),
        zero_seq(4),
        zero_seq(4),
        o.siaddr@,
        zero_seq(4),
        o.chaddr@,
        o.sname@,
        o.file@,
        o.magic_cookie,
        request_options(o.yiaddr@),
    )
}

/// The bytes of the Discover of the host with hardware address `mac`, for
/// the transaction `xid`.
pub open spec fn discover_bytes(mac: [u8; 6], xid: u32) -> Seq<u8> {
    dhcp_wire(
        1,
        1,
        6,
        0,
        xid,
        0,
        0,
        zero_seq(4),
        zero_seq(4),
        zero_seq(4),
        zero_seq(4),
        mac@ + zero_seq(10),
        zero_seq(64),
        zero_seq(128),
        MAGIC_COOKIE,
        discover_options(),
    )
}

impl Dhcp {
    /// A fresh request from the host with hardware address `mac_addr`:
    /// Ethernet, every address zero, no options yet.
    pub fn new(mac_addr: [u8; 6]) -> (r: Dhcp)
        ensures
            r.opcode == DhcpOp::Request,
            r.htype == DhcpHardType::Ethernet,
            r.hlen == DhcpHardwareLen::Ethernet,
            r.hops == 0,
            r.xid == 0,
            r.secs == 0,
            r.flags == DhcpFlags::UniCasts,
            r.ciaddr@ == zero_seq(4),
            r.yiaddr@ == zero_seq(4),
            r.siaddr@ == zero_seq(4),
            r.giaddr@ == zero_seq(4),
            r.chaddr@ == mac_addr@ + zero_seq(10),
            r.sname@ == zero_seq(64),
            r.file@ == zero_seq(128),
            r.magic_cookie == MAGIC_COOKIE,
            r.options@ == Seq::<u8>::empty(),
    {
        let r = Dhcp {
            opcode: DhcpOp::Request,
            htype: DhcpHardType::Ethernet,
            hlen: DhcpHardwareLen::Ethernet,
            hops: 0x0,
            xid: 0x0000_0000,
            secs: 0x0000,
            flags: DhcpFlags::UniCasts,
            ciaddr: [0u8, 0, 0, 0],
            yiaddr: [0u8, 0, 0, 0],
            siaddr: [0u8, 0, 0, 0],
            giaddr: [0u8, 0, 0, 0],
            chaddr: [
                mac_addr[0],
                mac_addr[1],
                mac_addr[2],
                mac_addr[3],
                mac_addr[4],
                mac_addr[5],
                0x00,
                0x00,
                0x00,
                0x00,
                0x00,
                0x00,
                0x00,
                0x00,
                0x00,
                0x00,
            ],
            sname: [0x0u8; 64],
            file: [0x0u8; 128],
            magic_cookie: MAGIC_COOKIE,
            options: Vec::new(),
        };
        assert(r.ciaddr@ =~= zero_seq(4));
        assert(r.yiaddr@ =~= zero_seq(4));
        assert(r.siaddr@ =~= zero_seq(4));
        assert(r.giaddr@ =~= zero_seq(4));
        assert(r.chaddr@ =~= mac_addr@ + zero_seq(10));
        assert(r.sname@ =~= zero_seq(64));
        assert(r.file@ =~= zero_seq(128));
        assert(r.options@ =~= Seq::<u8>::empty());
        r
    }

    /// Makes this message a Discover for the transaction `xid`.
    pub fn create_discover(&mut self, xid: u32)
        ensures
            final(self)@ == (DhcpPacket { xid, options: discover_options(), ..old(self)@ }),
    {
        self.xid = xid;
        self.create_discover_option();
    }

    /// Turns an Offer into the Request for the offered address; any other
    /// message stays as it is.
    pub fn create_request(&mut self)
        ensures
            old(self)@.message_type() == Some(DhcpMessageType::Offer) ==> is_request_for(
                final(self)@,
                old(self)@,
            ),
            old(self)@.message_type() != Some(DhcpMessageType::Offer) ==> final(self)@ == old(
                self,
            )@,
    {
        if self.is_offer() {
            self.create_request_option();
            self.opcode = DhcpOp::Request;
            self.ciaddr = [0u8, 0, 0, 0];
            self.yiaddr = [0u8, 0, 0, 0];
            self.giaddr = [0u8, 0, 0, 0];
            assert(self.ciaddr@ =~= zero_seq(4));
            assert(self.yiaddr@ =~= zero_seq(4));
            assert(self.giaddr@ =~= zero_seq(4));
        }
    }

    /// Sets the options of a Discover.
    pub fn create_discover_option(&mut self)
        ensures
            final(self)@ == (DhcpPacket { options: discover_options(), ..old(self)@ }),
    {
        let message_type = [DhcpMessageType::Discover.get_u8()];
        let requested_ip = [192u8, 168, 56, 103];
        let request_list = [1u8, 3, 15, 6];
        let dhcp_discover = DhcpOption::new(
            DhcpOptionType::DhcpMessageType,
            bytes_of(message_type.as_slice()),
        );
        let request_ip = DhcpOption::new(
            DhcpOptionType::RequestedIpAddress,
            bytes_of(requested_ip.as_slice()),
        );
        let parameter_list = DhcpOption::new(
            DhcpOptionType::ParameterRequestList,
            bytes_of(request_list.as_slice()),
        );
        let end = DhcpOption::new(DhcpOptionType::End, Vec::new());
        let mut option: Vec<u8> = Vec::new();
        push_bytes(&mut option, dhcp_discover.to_slice().as_slice());
        push_bytes(&mut option, request_ip.to_slice().as_slice());
        push_bytes(&mut option, parameter_list.to_slice().as_slice());
        push_bytes(&mut option, end.to_slice().as_slice());
        let len = dhcp_discover.len() + request_ip.len() + parameter_list.len() + end.len();
        push_bytes(&mut option, zeros(DHCP_OPTIONS_LEN - len).as_slice());
        proof {
            assert(message_type@ =~= seq![1u8]);
            assert(requested_ip@ =~= seq![192u8, 168, 56, 103]);
            assert(request_list@ =~= seq![1u8, 3, 15, 6]);
            assert(option@ =~= discover_options());
        }
        self.options = option;
    }

    /// Sets the options of a Request for the address this message offers.
    pub fn create_request_option(&mut self)
        ensures
            final(self)@ == (DhcpPacket { options: request_options(old(self).yiaddr@), ..old(self)@ }),
    {
        let message_type = [DhcpMessageType::Request.get_u8()];
        let dhcp_request = DhcpOption::new(
            DhcpOptionType::DhcpMessageType,
            bytes_of(message_type.as_slice()),
        );
        let dhcp_request_ip = DhcpOption::new(
            DhcpOptionType::RequestedIpAddress,
            bytes_of(self.yiaddr.as_slice()),
        );
        let end = DhcpOption::new(DhcpOptionType::End, Vec::new());
        let mut option: Vec<u8> = Vec::new();
        push_bytes(&mut option, dhcp_request.to_slice().as_slice());
        push_bytes(&mut option, dhcp_request_ip.to_slice().as_slice());
        push_bytes(&mut option, end.to_slice().as_slice());
        let len = dhcp_request.len() + dhcp_request_ip.len() + end.len();
        push_bytes(&mut option, zeros(DHCP_OPTIONS_LEN - len).as_slice());
        proof {
            assert(message_type@ =~= seq![3u8]);
            assert(option@ =~= request_options(self.yiaddr@));
        }
        self.options = option;
    }

    /// The value of the DHCP-message-type option, found by walking the TLV
    /// options until End or the end of the area.
    pub fn dhcp_message_type(&self) -> (r: Option<DhcpMessageType>)
        ensures
            r == self@.message_type(),
    {
        let opts = self.options.as_slice();
        let mut idx: usize = 0;
        while idx < opts.len()
            invariant
                idx <= opts@.len(),
                opts@ == self.options@,
                message_type_from(opts@, 0) == message_type_from(opts@, idx as nat),
            decreases opts@.len() - idx,
        {
            let option_type = opts[idx];
            if option_type == OPTION_END {
                return None;
            }
            if option_type == OPTION_DHCP_MESSAGE_TYPE {
                if opts.len() - idx > 2 {
                    return Some(DhcpMessageType::parse(opts[idx + 2]));
                }
                return None;
            }
            if idx + 1 >= opts.len() {
                return None;
            }
            let skip = opts[idx + 1] as usize;
            if skip >= opts.len() - (idx + 2) {
                return None;
            }
            idx = idx + 2 + skip;
        }
        None
    }

    pub fn is_discover(&self) -> (r: bool)
        ensures
            r == (self@.message_type() == Some(DhcpMessageType::Discover)),
    {
        match self.dhcp_message_type() {
            Some(DhcpMessageType::Discover) => true,
            _ => false,
        }
    }

    pub fn is_offer(&self) -> (r: bool)
        ensures
            r == (self@.message_type() == Some(DhcpMessageType::Offer)),
    {
        match self.dhcp_message_type() {
            Some(DhcpMessageType::Offer) => true,
            _ => false,
        }
    }

    pub fn is_request(&self) -> (r: bool)
        ensures
            r == (self@.message_type() == Some(DhcpMessageType::Request)),
    {
        match self.dhcp_message_type() {
            Some(DhcpMessageType::Request) => true,
            _ => false,
        }
    }

    pub fn is_ack(&self) -> (r: bool)
        ensures
            r == (self@.message_type() == Some(DhcpMessageType::AcknowledgementAck)),
    {
        match self.dhcp_message_type() {
            Some(DhcpMessageType::AcknowledgementAck) => true,
            _ => false,
        }
    }

    pub fn is_nak(&self) -> (r: bool)
        ensures
            r == (self@.message_type() == Some(DhcpMessageType::AcknowledgementNak)),
    {
        match self.dhcp_message_type() {
            Some(DhcpMessageType::AcknowledgementNak) => true,
            _ => false,
        }
    }

    /// The message as bytes for the wire.
    pub fn to_slice(&self) -> (r: Vec<u8>)
        ensures
            r@ == self@.bytes(),
    {
        let mut v: Vec<u8> = Vec::new();
        v.push(self.opcode.get_u8());
        v.push(self.htype.get_u8());
        v.push(self.hlen.get_u8());
        v.push(self.hops);
        push_u32_be(&mut v, self.xid);
        push_u16_be(&mut v, self.secs);
        push_u16_be(&mut v, self.flags.get_u16());
        push_bytes(&mut v, self.ciaddr.as_slice());
        push_bytes(&mut v, self.yiaddr.as_slice());
        push_bytes(&mut v, self.siaddr.as_slice());
        push_bytes(&mut v, self.giaddr.as_slice());
        push_bytes(&mut v, self.chaddr.as_slice());
        push_bytes(&mut v, self.sname.as_slice());
        push_bytes(&mut v, self.file.as_slice());
        push_u32_be(&mut v, self.magic_cookie);
        push_bytes(&mut v, self.options.as_slice());
        proof {
            assert(v@ =~= self@.bytes());
        }
        v
    }

    /// Reads a message; `None` for a buffer shorter than the fixed fields.
    pub fn parsed_from_buf(buf: &[u8]) -> (r: Option<Dhcp>)
        ensures
            match r {
                Some(d) => parse_dhcp(buf@) == Some(d@),
                None => parse_dhcp(buf@) is None,
            },
            r matches Some(d) ==> dhcp_read_from(buf@, d@),
    {
        if buf.len() < DHCP_FIXED_LEN {
            return None;
        }
        let d = Dhcp {
            opcode: DhcpOp::parse(buf[0]),
            htype: DhcpHardType::parse(buf[1]),
            hlen: DhcpHardwareLen::parse(buf[2]),
            hops: buf[3],
            xid: read_u32_be(buf, 4),
            secs: read_u16_be(buf, 8),
            flags: DhcpFlags::parse(read_u16_be(buf, 10)),
            ciaddr: ip_at(buf, 12),
            yiaddr: ip_at(buf, 16),
            siaddr: ip_at(buf, 20),
            giaddr: ip_at(buf, 24),
            chaddr: Dhcp::pop_chaddr(&buf[28..44]),
            sname: Dhcp::pop_sname(&buf[44..108]),
            file: Dhcp::pop_file(&buf[108..236]),
            magic_cookie: read_u32_be(buf, 236),
            options: copy_from(buf, DHCP_FIXED_LEN),
        };
        proof {
            assert(d.chaddr@ =~= buf@.subrange(28, 44));
            assert(d.sname@ =~= buf@.subrange(44, 108));
            assert(d.file@ =~= buf@.subrange(108, 236));
            let e = choose|e: DhcpPacket| dhcp_read_from(buf@, e);
            lemma_dhcp_parse_deterministic(buf@, d@, e);
        }
        Some(d)
    }

    /// The client hardware address field at the start of `slice`.
    pub fn pop_chaddr(slice: &[u8]) -> (r: [u8; 16])
        requires
            slice@.len() >= 16,
        ensures
            r@ == slice@.subrange(0, 16),
    {
        let mut s: [u8; 16] = [0; 16];
        let mut idx: usize = 0;
        while idx < 16
            invariant
                idx <= 16,
                slice@.len() >= 16,
                forall|k: int| 0 <= k < idx ==> s@[k] == slice@[k],
            decreases 16 - idx,
        {
            s[idx] = slice[idx];
            idx = idx + 1;
        }
        assert(s@ =~= slice@.subrange(0, 16));
        s
    }

    /// The server name field at the start of `slice`.
    pub fn pop_sname(slice: &[u8]) -> (r: [u8; 64])
        requires
            slice@.len() >= 64,
        ensures
            r@ == slice@.subrange(0, 64),
    {
        let mut s: [u8; 64] = [0; 64];
        let mut idx: usize = 0;
        while idx < 64
            invariant
                idx <= 64,
                slice@.len() >= 64,
                forall|k: int| 0 <= k < idx ==> s@[k] == slice@[k],
            decreases 64 - idx,
        {
            s[idx] = slice[idx];
            idx = idx + 1;
        }
        assert(s@ =~= slice@.subrange(0, 64));
        s
    }

    /// The boot file name field at the start of `slice`.
    pub fn pop_file(slice: &[u8]) -> (r: [u8; 128])
        requires
            slice@.len() >= 128,
        ensures
            r@ == slice@.subrange(0, 128),
    {
        let mut s: [u8; 128] = [0; 128];
        let mut idx: usize = 0;
        while idx < 128
            invariant
                idx <= 128,
                slice@.len() >= 128,
                forall|k: int| 0 <= k < idx ==> s@[k] == slice@[k],
            decreases 128 - idx,
        {
            s[idx] = slice[idx];
            idx = idx + 1;
        }
        assert(s@ =~= slice@.subrange(0, 128));
        s
    }
}


/// The limited broadcast address 255.255.255.255.
pub open spec fn limited_broadcast() -> [u8; 4] {
    [255u8, 255, 255, 255]
}

/// What handling the DHCP message `payload`, carried by the frame
/// `received`, does to the stack `old`, giving the stack `new` and the frame
/// `r` to send. An Offer is answered with the Request for the offered
/// address, sent back to the server whatever address the Offer went to; an
/// Ack makes its `yiaddr` this host's address; anything else, or bytes that
/// do not parse, changes nothing and sends nothing.
pub open spec fn dhcp_reply_effect(
    old: NetStack,
    received: EthernetFrame,
    payload: Seq<u8>,
    new: NetStack,
    r: Option<Vec<u8>>,
) -> bool {
    match parse_dhcp(payload) {
        Some(d) => if d.message_type() == Some(DhcpMessageType::Offer) {
            &&& new == old
            &&& frame_matches(r, udp_reply_frame(old, received, request_bytes(d), false))
        } else if d.message_type() == Some(DhcpMessageType::AcknowledgementAck) {
            new == (NetStack { my_ip: d.yiaddr, ..old }) && r is None
        } else {
            new == old && r is None
        },
        None => new == old && r is None,
    }
}

/// The broadcast Discover of this host for the transaction `xid`, from
/// port 68 to port 67.
pub fn request_discover(stack: &NetStack, xid: u32) -> (r: Vec<u8>)
    ensures
        r@ == udp_send_frame(
            *stack,
            DHCP_CLIENT_PORT,
            DHCP_SERVER_PORT,
            limited_broadcast(),
            discover_bytes(stack.mac_addr, xid),
        ),
{
    let mut dhcp = Dhcp::new(stack.mac_addr);
    dhcp.create_discover(xid);
    let dest_ip_addr: [u8; 4] = [255, 255, 255, 255];
    let bytes = dhcp.to_slice();
    proof {
        assert(dhcp@.bytes() =~= discover_bytes(stack.mac_addr, xid));
    }
    send_udp(stack, DHCP_CLIENT_PORT, DHCP_SERVER_PORT, dest_ip_addr, bytes)
}

/// Handles a DHCP message that reached the client port: answers an Offer
/// with a Request, and takes the address of an Ack as this host's.
pub fn reply_dhcp(
    stack: &mut NetStack,
    received_ethernet_header: &EthernetHdr,
    received_payload: &[u8],
) -> (r: Option<Vec<u8>>)
    requires
        old(stack).wf(),
    ensures
        final(stack).wf(),
        dhcp_reply_effect(*old(stack), received_ethernet_header@, received_payload@, *final(stack), r),
{
    let mut dhcp = match Dhcp::parsed_from_buf(received_payload) {
        Some(d) => d,
        None => return None,
    };
    if dhcp.is_offer() {
        let ghost offer = dhcp@;
        dhcp.create_request();
        let bytes = dhcp.to_slice();
        proof {
            assert(dhcp@.options.len() == DHCP_OPTIONS_LEN);
            assert(dhcp@.bytes() =~= request_bytes(offer));
        }
        return reply_udp(stack, received_ethernet_header, bytes, false);
    }
    if dhcp.is_ack() {
        set_my_ip(stack, &dhcp.yiaddr);
    }
    None
}

/// The Request made of a well-formed Offer reads back as a Request: its
/// DHCP-message-type option says Request, and its requested-IP option holds
/// the offered address.
pub proof fn lemma_request_asks_for_offered_address(o: DhcpPacket)
    requires
        o.well_formed(),
    ensures
        parse_dhcp(request_bytes(o)) matches Some(n) && {
            &&& n.message_type() == Some(DhcpMessageType::Request)
            &&& n.options.subrange(3, 5) == seq![OPTION_REQUESTED_IP_ADDRESS, 4u8]
            &&& n.options.subrange(5, 9) == o.yiaddr@
        },
{
    let zero4 = [0u8, 0, 0, 0];
    let n = DhcpPacket {
        opcode: DhcpOp::Request,
        ciaddr: zero4,
        yiaddr: zero4,
        giaddr: zero4,
        options: request_options(o.yiaddr@),
        ..o
    };
    assert(zero4@ =~= zero_seq(4));
    assert(n.bytes() =~= request_bytes(o));
    lemma_dhcp_round_trip(n);
    assert(n.options.subrange(3, 5) =~= seq![OPTION_REQUESTED_IP_ADDRESS, 4u8]);
    assert(n.options.subrange(5, 9) =~= o.yiaddr@);
}

} // verus!
