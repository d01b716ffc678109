//! IPv4: the header, its checksum, the fragmentation flags, and the frames
//! that send or answer a packet.

use vstd::prelude::*;
use crate::arp::{ip_for_mac, mac_for_ip, get_hardware_addr_from_ip_addr, get_my_hard_and_ip_addr};
use crate::ethernet::{
    broadcast_mac_addr, frame_bytes, frame_matches, send_ethernet_packet, EthernetFrame, EthernetHdr,
    ETHERNET_TYPE_IP,
};
use crate::net_util::{
    be16, bytes_equal, checksum, checksum_of, copy_from, ip_at, lemma_u16_round_trip, push_bytes,
    push_u16_be, read_u16_be, u16_be,
};
use crate::stack::NetStack;

verus! {

/// Length of the header without options.
pub const IP_HEADER_LEN: usize = 20;

/// The largest packet the 16-bit length field can describe.
pub const MAX_IP_PACKET_LEN: usize = 65535;

/// The largest payload of a packet.
pub const MAX_IP_PAYLOAD_LEN: usize = 65515;

/// Time to live of a packet this host sends.
pub const DEFAULT_TTL: u8 = 30;

/// The version and header length byte.
#[derive(Clone, Copy, Debug, PartialEq, Eq, Structural)]
pub enum VersionIhl {
    /// Internet Protocol, five-word header.
    Ip,
    /// ST Datagram Mode.
    St,
    /// Internet Protocol version 6.
    Ipv6,
    /// TP/IX: The Next Internet.
    TpIx,
    /// The P Internet Protocol.
    Pip,
    /// TUBA.
    Tuba,
    /// A byte none of the others stands for.
    Unknown(u8),
}

/// The variant that the byte `b` stands for.
pub open spec fn version_ihl_of(b: u8) -> VersionIhl {
    if b == 0x45 {
        VersionIhl::Ip
    } else if b == 0x55 {
        VersionIhl::St
    } else if b == 0x65 {
        VersionIhl::Ipv6
    } else if b == 0x75 {
        VersionIhl::TpIx
    } else if b == 0x85 {
        VersionIhl::Pip
    } else if b == 0x95 {
        VersionIhl::Tuba
    } else {
        VersionIhl::Unknown(b)
    }
}

impl VersionIhl {
    pub open spec fn spec_u8(self) -> u8 {
        match self {
            VersionIhl::Ip => 0x45,
            VersionIhl::St => 0x55,
            VersionIhl::Ipv6 => 0x65,
            VersionIhl::TpIx => 0x75,
            VersionIhl::Pip => 0x85,
            VersionIhl::Tuba => 0x95,
            VersionIhl::Unknown(b) => b,
        }
    }

    /// `Unknown` holds only bytes that no other variant stands for.
    pub open spec fn well_formed(self) -> bool {
        version_ihl_of(self.spec_u8()) == self
    }

    pub fn get_u8(&self) -> (r: u8)
        ensures
            r == self.spec_u8(),
    {
        match self {
            VersionIhl::Ip => 0x45,
            VersionIhl::St => 0x55,
            VersionIhl::Ipv6 => 0x65,
            VersionIhl::TpIx => 0x75,
            VersionIhl::Pip => 0x85,
            VersionIhl::Tuba => 0x95,
            VersionIhl::Unknown(b) => *b,
        }
    }

    pub fn parse(version_ihl: u8) -> (r: VersionIhl)
        ensures
            r == version_ihl_of(version_ihl),
    {
        if version_ihl == 0x45 {
            VersionIhl::Ip
        } else if version_ihl == 0x55 {
            VersionIhl::St
        } else if version_ihl == 0x65 {
            VersionIhl::Ipv6
        } else if version_ihl == 0x75 {
            VersionIhl::TpIx
        } else if version_ihl == 0x85 {
            VersionIhl::Pip
        } else if version_ihl == 0x95 {
            VersionIhl::Tuba
        } else {
            VersionIhl::Unknown(version_ihl)
        }
    }
}

/// The protocol that a packet carries.
#[derive(Clone, Copy, Debug, PartialEq, Eq, Structural)]
pub enum IpProtocol {
    Icmp,
    Tcp,
    Udp,
    /// A protocol number this stack does not handle.
    Unknown(u8),
}

pub const IP_PROTOCOL_ICMP: u8 = 1;

pub const IP_PROTOCOL_TCP: u8 = 6;

pub const IP_PROTOCOL_UDP: u8 = 17;

/// The protocol that the number `p` stands for.
pub open spec fn ip_protocol_of(p: u8) -> IpProtocol {
    if p == IP_PROTOCOL_ICMP {
        IpProtocol::Icmp
    } else if p == IP_PROTOCOL_TCP {
        IpProtocol::Tcp
    } else if p == IP_PROTOCOL_UDP {
        IpProtocol::Udp
    } else {
        IpProtocol::Unknown(p)
    }
}

impl IpProtocol {
    pub open spec fn spec_u8(self) -> u8 {
        match self {
            IpProtocol::Icmp => IP_PROTOCOL_ICMP,
            IpProtocol::Tcp => IP_PROTOCOL_TCP,
            IpProtocol::Udp => IP_PROTOCOL_UDP,
            IpProtocol::Unknown(p) => p,
        }
    }

    /// `Unknown` holds only numbers that no other variant stands for.
    pub open spec fn well_formed(self) -> bool {
        ip_protocol_of(self.spec_u8()) == self
    }

    pub fn get_u8(&self) -> (r: u8)
        ensures
            r == self.spec_u8(),
    {
        match self {
            IpProtocol::Icmp => IP_PROTOCOL_ICMP,
            IpProtocol::Tcp => IP_PROTOCOL_TCP,
            IpProtocol::Udp => IP_PROTOCOL_UDP,
            IpProtocol::Unknown(p) => *p,
        }
    }

    /// Whether both stand for the same protocol number.
    pub fn equals(&self, other: IpProtocol) -> (r: bool)
        ensures
            r == (self.spec_u8() == other.spec_u8()),
    {
        self.get_u8() == other.get_u8()
    }

    pub fn parse(ip_protocol: u8) -> (r: IpProtocol)
        ensures
            r == ip_protocol_of(ip_protocol),
    {
        if ip_protocol == IP_PROTOCOL_ICMP {
            IpProtocol::Icmp
        } else if ip_protocol == IP_PROTOCOL_TCP {
            IpProtocol::Tcp
        } else if ip_protocol == IP_PROTOCOL_UDP {
            IpProtocol::Udp
        } else {
            IpProtocol::Unknown(ip_protocol)
        }
    }
}

/// An IPv4 packet: the header fields and the payload.
pub struct IpHdr {
    pub version_ihl: VersionIhl,
    pub dscp_ecn: u8,
    pub length: u16,
    pub identifier: u16,
    pub flag_flagment_offset: u16,
    pub ttl: u8,
    pub protocol: IpProtocol,
    pub checksum: u16,
    pub src_ip_addr: [u8; 4],
    pub dst_ip_addr: [u8; 4],
    pub payload: Vec<u8>,
}

/// What an `IpHdr` holds, with its payload as a sequence.
pub struct IpPacket {
    pub version_ihl: VersionIhl,
    pub dscp_ecn: u8,
    pub length: u16,
    pub identifier: u16,
    pub flag_flagment_offset: u16,
    pub ttl: u8,
    pub protocol: IpProtocol,
    pub checksum: u16,
    pub src_ip_addr: [u8; 4],
    pub dst_ip_addr: [u8; 4],
    pub payload: Seq<u8>,
}

impl View for IpHdr {
    type V = IpPacket;

    open spec fn view(&self) -> IpPacket {
        IpPacket {
            version_ihl: self.version_ihl,
            dscp_ecn: self.dscp_ecn,
            length: self.length,
            identifier: self.identifier,
            flag_flagment_offset: self.flag_flagment_offset,
            ttl: self.ttl,
            protocol: self.protocol,
            checksum: self.checksum,
            src_ip_addr: self.src_ip_addr,
            dst_ip_addr: self.dst_ip_addr,
            payload: self.payload@,
        }
    }
}

impl IpPacket {
    /// The 20 header bytes on the wire.
    pub open spec fn header_bytes(self) -> Seq<u8> {
        seq![self.version_ihl.spec_u8(), self.dscp_ecn] + u16_be(self.length) + u16_be(
            self.identifier,
        ) + u16_be(self.flag_flagment_offset) + seq![self.ttl, self.protocol.spec_u8()] + u16_be(
            self.checksum,
        ) + self.src_ip_addr@ + self.dst_ip_addr@
    }

    /// The packet on the wire.
    pub open spec fn bytes(self) -> Seq<u8> {
        self.header_bytes() + self.payload
    }

    /// The checksum of the header as it stands, its checksum field included.
    pub open spec fn header_checksum(self) -> u16 {
        checksum_of(self.header_bytes())
    }

    /// A packet that reads back as itself.
    pub open spec fn well_formed(self) -> bool {
        &&& self.version_ihl.well_formed()
        &&& self.protocol.well_formed()
        &&& self.payload.len() <= MAX_IP_PAYLOAD_LEN
    }
}

/// `p` with its checksum field set to the checksum of its header.
pub open spec fn with_checksum(p: IpPacket) -> IpPacket {
    IpPacket { checksum: p.header_checksum(), ..p }
}

/// Whether parsing accepts `b`: a full header, and no more bytes than a
/// packet can have.
pub open spec fn ip_accepted(b: Seq<u8>) -> bool {
    IP_HEADER_LEN <= b.len() <= MAX_IP_PACKET_LEN
}

/// Whether `p` holds the fields read from the bytes `b`.
pub open spec fn ip_read_from(b: Seq<u8>, p: IpPacket) -> bool {
    &&& b.len() >= IP_HEADER_LEN
    &&& p.version_ihl == version_ihl_of(b[0])
    &&& p.dscp_ecn == b[1]
    &&& p.length == be16(b[2], b[3])
    &&& p.identifier == be16(b[4], b[5])
    &&& p.flag_flagment_offset == be16(b[6], b[7])
    &&& p.ttl == b[8]
    &&& p.protocol == ip_protocol_of(b[9])
    &&& p.checksum == be16(b[10], b[11])
    &&& p.src_ip_addr@ == b.subrange(12, 16)
    &&& p.dst_ip_addr@ == b.subrange(16, 20)
    &&& p.payload == b.subrange(20, b.len() as int)
}

/// What parsing the bytes `b` as an IP packet gives.
pub open spec fn parse_ip(b: Seq<u8>) -> Option<IpPacket> {
    if ip_accepted(b) {
        Some(choose|p: IpPacket| ip_read_from(b, p))
    } else {
        None
    }
}

/// Parsing is a function of the bytes: two readings of one buffer agree.
pub proof fn lemma_ip_parse_deterministic(b: Seq<u8>, p: IpPacket, q: IpPacket)
    requires
        ip_read_from(b, p),
        ip_read_from(b, q),
    ensures
        p == q,
{
    assert(p.src_ip_addr =~= q.src_ip_addr);
    assert(p.dst_ip_addr =~= q.dst_ip_addr);
}

/// A well-formed packet read back from its bytes is the packet written.
pub proof fn lemma_ip_round_trip(p: IpPacket)
    requires
        p.well_formed(),
    ensures
        parse_ip(p.bytes()) == Some(p),
{
    let b = p.bytes();
    lemma_u16_round_trip(p.length);
    lemma_u16_round_trip(p.identifier);
    lemma_u16_round_trip(p.flag_flagment_offset);
    lemma_u16_round_trip(p.checksum);
    assert(b[2] == u16_be(p.length)[0] && b[3] == u16_be(p.length)[1]);
    assert(b[4] == u16_be(p.identifier)[0] && b[5] == u16_be(p.identifier)[1]);
    assert(b[6] == u16_be(p.flag_flagment_offset)[0] && b[7] == u16_be(p.flag_flagment_offset)[1]);
    assert(b[10] == u16_be(p.checksum)[0] && b[11] == u16_be(p.checksum)[1]);
    assert(b.subrange(12, 16) =~= p.src_ip_addr@);
    assert(b.subrange(16, 20) =~= p.dst_ip_addr@);
    assert(b.subrange(20, b.len() as int) =~= p.payload);
    assert(ip_read_from(b, p));
    let q = choose|q: IpPacket| ip_read_from(b, q);
    lemma_ip_parse_deterministic(b, p, q);
}

impl IpHdr {
    /// An empty packet with this host's defaults: IPv4, TTL 30, TCP.
    pub fn new() -> (r: IpHdr)
        ensures
            r.version_ihl == VersionIhl::Ip,
            r.dscp_ecn == 0,
            r.length == 0,
            r.identifier == 0,
            r.flag_flagment_offset == 0,
            r.ttl == DEFAULT_TTL,
            r.protocol == IpProtocol::Tcp,
            r.checksum == 0,
            r.src_ip_addr@ == seq![0u8, 0, 0, 0],
            r.dst_ip_addr@ == seq![0u8, 0, 0, 0],
            r.payload@.len() == 0,
    {
        let r = IpHdr {
            version_ihl: VersionIhl::Ip,
            dscp_ecn: 0x00,
            length: 0x00,
            identifier: 0x00,
            flag_flagment_offset: 0x00,
            ttl: DEFAULT_TTL,
            protocol: IpProtocol::Tcp,
            checksum: 0x00,
            src_ip_addr: [0u8, 0, 0, 0],
            dst_ip_addr: [0u8, 0, 0, 0],
            payload: Vec::new(),
        };
        assert(r.src_ip_addr@ =~= seq![0u8, 0, 0, 0]);
        assert(r.dst_ip_addr@ =~= seq![0u8, 0, 0, 0]);
        r
    }

    pub fn get_src_ip_addr(&self) -> (r: [u8; 4])
        ensures
            r == self.src_ip_addr,
    {
        self.src_ip_addr
    }

    pub fn get_dst_ip_addr(&self) -> (r: [u8; 4])
        ensures
            r == self.dst_ip_addr,
    {
        self.dst_ip_addr
    }

    pub fn get_type(&self) -> (r: &IpProtocol)
        ensures
            *r == self.protocol,
    {
        &self.protocol
    }

    pub fn is_tcp(&self) -> (r: bool)
        ensures
            r == (self.protocol == IpProtocol::Tcp),
    {
        self.protocol == IpProtocol::Tcp
    }

    pub fn is_udp(&self) -> (r: bool)
        ensures
            r == (self.protocol == IpProtocol::Udp),
    {
        self.protocol == IpProtocol::Udp
    }

    pub fn is_icmp(&self) -> (r: bool)
        ensures
            r == (self.protocol == IpProtocol::Icmp),
    {
        self.protocol == IpProtocol::Icmp
    }

    /// Reads a packet. Gives `None` for a buffer shorter than the header or
    /// longer than a packet can be.
    pub fn parsed_from_buf(buf: &[u8]) -> (r: Option<IpHdr>)
        ensures
            match r {
                Some(h) => parse_ip(buf@) == Some(h@),
                None => parse_ip(buf@) is None,
            },
            r matches Some(h) ==> ip_read_from(buf@, h@),
    {
        if buf.len() < IP_HEADER_LEN || buf.len() > MAX_IP_PACKET_LEN {
            return None;
        }
        let h = IpHdr {
            version_ihl: VersionIhl::parse(buf[0]),
            dscp_ecn: buf[1],
            length: read_u16_be(buf, 2),
            identifier: read_u16_be(buf, 4),
            flag_flagment_offset: read_u16_be(buf, 6),
            ttl: buf[8],
            protocol: IpProtocol::parse(buf[9]),
            checksum: read_u16_be(buf, 10),
            src_ip_addr: ip_at(buf, 12),
            dst_ip_addr: ip_at(buf, 16),
            payload: copy_from(buf, IP_HEADER_LEN),
        };
        proof {
            let q = choose|q: IpPacket| ip_read_from(buf@, q);
            lemma_ip_parse_deterministic(buf@, h@, q);
        }
        Some(h)
    }

    /// The 20 header bytes.
    pub fn header_to_slice(&self) -> (r: Vec<u8>)
        ensures
            r@ == self@.header_bytes(),
    {
        let mut v: Vec<u8> = Vec::new();
        v.push(self.version_ihl.get_u8());
        v.push(self.dscp_ecn);
        push_u16_be(&mut v, self.length);
        push_u16_be(&mut v, self.identifier);
        push_u16_be(&mut v, self.flag_flagment_offset);
        v.push(self.ttl);
        v.push(self.protocol.get_u8());
        push_u16_be(&mut v, self.checksum);
        push_bytes(&mut v, self.src_ip_addr.as_slice());
        push_bytes(&mut v, self.dst_ip_addr.as_slice());
        proof {
            assert(v@ =~= self@.header_bytes());
        }
        v
    }

    /// The packet as bytes for the wire.
    pub fn to_slice(&self) -> (r: Vec<u8>)
        ensures
            r@ == self@.bytes(),
    {
        let mut v = self.header_to_slice();
        push_bytes(&mut v, self.payload.as_slice());
        v
    }

    /// Whether the flags and offset word, with its low three bits cleared,
    /// equals 2.
    pub fn get_offset(&self) -> (r: bool)
        ensures
            r == (self.flag_flagment_offset & 0xfff8 == 2),
    {
        self.flag_flagment_offset & 0xfff8 == 2
    }

    /// Whether the more-fragments bit is set.
    pub fn check_fragment_on(&self) -> (r: bool)
        ensures
            r == (self.flag_flagment_offset & 2 == 2),
    {
        self.flag_flagment_offset & 2 == 2
    }

    /// Sets the more-fragments bit.
    pub fn fragment_on(&mut self)
        ensures
            final(self)@ == (IpPacket {
                flag_flagment_offset: old(self).flag_flagment_offset | 2,
                ..old(self)@
            }),
    {
        self.flag_flagment_offset = self.flag_flagment_offset | 2;
    }

    /// Clears the more-fragments bit.
    pub fn fragment_off(&mut self)
        ensures
            final(self)@ == (IpPacket {
                flag_flagment_offset: old(self).flag_flagment_offset & 0xfffd,
                ..old(self)@
            }),
    {
        self.flag_flagment_offset = self.flag_flagment_offset & 0xfffd;
    }

    /// Whether the last-packet bit is set.
    pub fn check_last_packet(&self) -> (r: bool)
        ensures
            r == (self.flag_flagment_offset & 4 == 4),
    {
        self.flag_flagment_offset & 4 == 4
    }

    /// Sets the last-packet bit.
    pub fn last_packet_on(&mut self)
        ensures
            final(self)@ == (IpPacket {
                flag_flagment_offset: old(self).flag_flagment_offset | 4,
                ..old(self)@
            }),
    {
        self.flag_flagment_offset = self.flag_flagment_offset | 4;
    }

    /// A copy of the payload.
    pub fn get_data(&self) -> (r: Vec<u8>)
        ensures
            r@ == self.payload@,
    {
        copy_from(self.payload.as_slice(), 0)
    }

    /// Sets the checksum field to the checksum of the header as it stands.
    pub fn calc_checksum(&mut self)
        ensures
            final(self)@ == with_checksum(old(self)@),
    {
        let header = self.header_to_slice();
        self.checksum = checksum(header.as_slice());
    }

    /// Sets the length field to the header and payload length.
    pub fn calc_length(&mut self)
        requires
            old(self).payload@.len() <= MAX_IP_PAYLOAD_LEN,
        ensures
            final(self)@ == (IpPacket {
                length: (IP_HEADER_LEN + old(self).payload@.len()) as u16,
                ..old(self)@
            }),
    {
        self.length = (IP_HEADER_LEN + self.payload.len()) as u16;
    }

    pub fn set_payload(&mut self, buf: Vec<u8>)
        ensures
            final(self)@ == (IpPacket { payload: buf@, ..old(self)@ }),
    {
        self.payload = buf;
    }
}

/// The source address of packets this host sends: the address the ARP cache
/// holds for this host's hardware address, else the leased address.
pub open spec fn local_ip(stack: NetStack) -> [u8; 4] {
    match ip_for_mac(stack.arp_table.entries@, stack.mac_addr@) {
        Some(ip) => ip,
        None => stack.my_ip,
    }
}

/// The broadcast hardware address.
pub open spec fn broadcast_mac() -> Seq<u8> {
    seq![0xffu8, 0xff, 0xff, 0xff, 0xff, 0xff]
}

/// The packet this host sends to `dst` carrying `payload`.
pub open spec fn outgoing_packet(
    src: [u8; 4],
    dst: [u8; 4],
    protocol: IpProtocol,
    payload: Seq<u8>,
) -> IpPacket {
    with_checksum(
        IpPacket {
            version_ihl: VersionIhl::Ip,
            dscp_ecn: 0,
            length: (IP_HEADER_LEN + payload.len()) as u16,
            identifier: 0,
            flag_flagment_offset: 0,
            ttl: DEFAULT_TTL,
            protocol,
            checksum: 0,
            src_ip_addr: src,
            dst_ip_addr: dst,
            payload,
        },
    )
}

/// The hardware address a packet for `dst` goes to: broadcast for ICMP,
/// else the cached address, else broadcast.
pub open spec fn next_hop_mac(stack: NetStack, protocol: IpProtocol, dst: Seq<u8>) -> Seq<u8> {
    if protocol == IpProtocol::Icmp {
        broadcast_mac()
    } else {
        match mac_for_ip(stack.arp_table.entries@, dst) {
            Some(m) => m@,
            None => broadcast_mac(),
        }
    }
}

/// The frame that sends `payload` to `dst_ip_addr` over `protocol`.
pub open spec fn ip_send_frame(
    stack: NetStack,
    protocol: IpProtocol,
    dst_ip_addr: [u8; 4],
    payload: Seq<u8>,
) -> Seq<u8> {
    frame_bytes(
        next_hop_mac(stack, protocol, dst_ip_addr@),
        stack.mac_addr@,
        ETHERNET_TYPE_IP,
        outgoing_packet(local_ip(stack), dst_ip_addr, protocol, payload).bytes(),
    )
}

/// The packet answering `p` from `src` with `payload`: the same version,
/// service, identifier, flags and protocol, one hop less to live, and the
/// addresses swapped.
pub open spec fn reply_packet(p: IpPacket, src: [u8; 4], payload: Seq<u8>) -> IpPacket {
    with_checksum(
        IpPacket {
            version_ihl: p.version_ihl,
            dscp_ecn: p.dscp_ecn,
            length: (IP_HEADER_LEN + payload.len()) as u16,
            identifier: p.identifier,
            flag_flagment_offset: p.flag_flagment_offset,
            ttl: (p.ttl - 1) as u8,
            protocol: p.protocol,
            checksum: 0,
            src_ip_addr: src,
            dst_ip_addr: p.src_ip_addr,
            payload,
        },
    )
}

/// The frame answering the frame `received` with `payload`, when its IP
/// packet parses and has time to live left; `check_dst` asks in addition
/// that the packet was addressed to this host.
pub open spec fn ip_reply_frame(
    stack: NetStack,
    received: EthernetFrame,
    payload: Seq<u8>,
    check_dst: bool,
) -> Option<Seq<u8>> {
    match parse_ip(received.payload) {
        Some(p) => if (check_dst && p.dst_ip_addr != local_ip(stack)) || p.ttl == 0 {
            None
        } else {
            Some(
                frame_bytes(
                    received.src_mac_addr@,
                    stack.mac_addr@,
                    ETHERNET_TYPE_IP,
                    reply_packet(p, local_ip(stack), payload).bytes(),
                ),
            )
        },
        None => None,
    }
}

/// The source address for a packet this host sends now.
fn my_ip_addr(stack: &NetStack) -> (r: [u8; 4])
    ensures
        r == local_ip(*stack),
{
    match get_my_hard_and_ip_addr(stack) {
        (_, Some(ip_addr)) => ip_addr,
        (_, None) => stack.my_ip,
    }
}

/// The frame that sends `payload` to `dst_ip_addr` over `protocol`: source
/// address, length, TTL 30 and checksum filled in; the destination hardware
/// address from the ARP cache, or broadcast on a miss and for ICMP.
pub fn send_ip_packet(
    stack: &NetStack,
    protocol: IpProtocol,
    dst_ip_addr: &[u8; 4],
    payload: Vec<u8>,
) -> (r: Vec<u8>)
    requires
        payload@.len() <= MAX_IP_PAYLOAD_LEN,
    ensures
        r@ == ip_send_frame(*stack, protocol, *dst_ip_addr, payload@),
{
    let my_ip_addr = my_ip_addr(stack);
    let mut ip = IpHdr {
        version_ihl: VersionIhl::Ip,
        dscp_ecn: 0x00,
        length: 0x00,
        identifier: 0x00,
        flag_flagment_offset: 0x00,
        ttl: DEFAULT_TTL,
        protocol,
        checksum: 0x00,
        src_ip_addr: my_ip_addr,
        dst_ip_addr: *dst_ip_addr,
        payload,
    };
    ip.calc_length();
    ip.calc_checksum();
    let dst_mac_addr = match protocol {
        IpProtocol::Icmp => broadcast_mac_addr(),
        _ => match get_hardware_addr_from_ip_addr(stack, dst_ip_addr) {
            Some(addr) => addr,
            None => broadcast_mac_addr(),
        },
    };
    let data = ip.to_slice();
    send_ethernet_packet(stack.mac_addr, dst_mac_addr, data, ETHERNET_TYPE_IP)
}

/// The reply frame to `received`, addressed back to its sender; `None` when
/// its IP packet does not parse, has no time to live left, or (with
/// `check_dst`) was not addressed to this host.
fn reply_frame(stack: &NetStack, received: &EthernetHdr, payload: Vec<u8>, check_dst: bool) -> (r:
    Option<Vec<u8>>)
    requires
        payload@.len() <= MAX_IP_PAYLOAD_LEN,
    ensures
        frame_matches(r, ip_reply_frame(*stack, received@, payload@, check_dst)),
{
    let received_ip_header = match IpHdr::parsed_from_buf(received.payload.as_slice()) {
        Some(h) => h,
        None => return None,
    };
    let my_ip_addr = my_ip_addr(stack);
    if check_dst && !bytes_equal(my_ip_addr.as_slice(), received_ip_header.dst_ip_addr.as_slice()) {
        proof {
            assert(received_ip_header.dst_ip_addr != my_ip_addr);
        }
        return None;
    }
    if received_ip_header.ttl == 0 {
        return None;
    }
    proof {
        if check_dst {
            assert(received_ip_header.dst_ip_addr =~= my_ip_addr);
        }
    }
    let mut reply_ip_header = IpHdr {
        version_ihl: received_ip_header.version_ihl,
        dscp_ecn: received_ip_header.dscp_ecn,
        length: 0x00,
        identifier: received_ip_header.identifier,
        flag_flagment_offset: received_ip_header.flag_flagment_offset,
        ttl: received_ip_header.ttl - 1,
        protocol: received_ip_header.protocol,
        checksum: 0x00,
        src_ip_addr: my_ip_addr,
        dst_ip_addr: received_ip_header.src_ip_addr,
        payload,
    };
    reply_ip_header.calc_length();
    reply_ip_header.calc_checksum();
    let data = reply_ip_header.to_slice();
    Some(send_ethernet_packet(stack.mac_addr, received.src_mac_addr, data, ETHERNET_TYPE_IP))
}

/// The frame answering `received_ethernet_header` with `payload`, only when
/// its packet was addressed to this host.
pub fn reply_ip_packet(stack: &NetStack, received_ethernet_header: &EthernetHdr, payload: Vec<u8>) -> (r:
    Option<Vec<u8>>)
    requires
        payload@.len() <= MAX_IP_PAYLOAD_LEN,
    ensures
        frame_matches(r, ip_reply_frame(*stack, received_ethernet_header@, payload@, true)),
{
    reply_frame(stack, received_ethernet_header, payload, true)
}

/// The frame answering `received_ethernet_header` with `payload`, whatever
/// address its packet was sent to; for exchanges before this host has an
/// address.
pub fn reply_ip_packet_with_no_check_from_ip(
    stack: &NetStack,
    received_ethernet_header: &EthernetHdr,
    payload: Vec<u8>,
) -> (r: Option<Vec<u8>>)
    requires
        payload@.len() <= MAX_IP_PAYLOAD_LEN,
    ensures
        frame_matches(r, ip_reply_frame(*stack, received_ethernet_header@, payload@, false)),
{
    reply_frame(stack, received_ethernet_header, payload, false)
}

/// The leased address of this host.
pub fn get_my_ip(stack: &NetStack) -> (r: [u8; 4])
    ensures
        r == stack.my_ip,
{
    stack.my_ip
}

/// Records `ip` as this host's address, for the IP and ARP layers alike.
pub fn set_my_ip(stack: &mut NetStack, ip: &[u8; 4])
    ensures
        *final(stack) == (NetStack { my_ip: *ip, ..*old(stack) }),
{
    stack.my_ip = *ip;
}

} // verus!
