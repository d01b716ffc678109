//! UDP: the datagram, its checksum over the IP pseudo-header, and dispatch
//! of incoming datagrams by port.

use vstd::prelude::*;
use crate::dhcp::{dhcp_reply_effect, reply_dhcp, DHCP_CLIENT_PORT, DHCP_SERVER_PORT};
use crate::ethernet::{frame_matches, EthernetFrame, EthernetHdr};
use crate::ip::{
    ip_reply_frame, ip_send_frame, parse_ip, reply_ip_packet, reply_ip_packet_with_no_check_from_ip,
    send_ip_packet, IpHdr, IpPacket, IpProtocol,
};
use crate::net_util::{
    be16, checksum, checksum_of, copy_from, lemma_u16_round_trip, push_bytes, push_u16_be,
    read_u16_be, u16_be,
};
use crate::stack::NetStack;

verus! {

/// The IP protocol number of UDP.
pub const UDP_PROTOCOL_NUMBER: u8 = 17;

/// The zero byte before the protocol in the pseudo-header.
pub const UDP_PADDING: u8 = 0x0;

pub const UDP_HEADER_LEN: usize = 8;

/// The most data a datagram can carry inside one IP packet.
pub const MAX_UDP_DATA_LEN: usize = 65507;

/// Whether replies carry a computed checksum. They do not: a reply leaves
/// the field zero, which over IPv4 means "no checksum".
pub const UDP_REPLY_CHECKSUM: bool = false;

/// A UDP datagram.
pub struct UdpHdr {
    pub source_port: u16,
    pub dest_port: u16,
    pub length: u16,
    pub checksum: u16,
    pub data: Vec<u8>,
}

/// What a `UdpHdr` holds, with its data as a sequence.
pub struct UdpDatagram {
    pub source_port: u16,
    pub dest_port: u16,
    pub length: u16,
    pub checksum: u16,
    pub data: Seq<u8>,
}

impl View for UdpHdr {
    type V = UdpDatagram;

    open spec fn view(&self) -> UdpDatagram {
        UdpDatagram {
            source_port: self.source_port,
            dest_port: self.dest_port,
            length: self.length,
            checksum: self.checksum,
            data: self.data@,
        }
    }
}

impl UdpDatagram {
    /// The datagram on the wire.
    pub open spec fn bytes(self) -> Seq<u8> {
        u16_be(self.source_port) + u16_be(self.dest_port) + u16_be(self.length) + u16_be(
            self.checksum,
        ) + self.data
    }
}

/// The pseudo-header for a datagram of `length` bytes from `src` to `dst`.
pub open spec fn pseudo_bytes(src: Seq<u8>, dst: Seq<u8>, length: u16) -> Seq<u8> {
    src + dst + seq![UDP_PADDING, UDP_PROTOCOL_NUMBER] + u16_be(length)
}

/// The checksum of `u` sent from `src` to `dst`: over the pseudo-header,
/// the header as it stands and the data.
pub open spec fn udp_checksum(src: [u8; 4], dst: [u8; 4], u: UdpDatagram) -> u16 {
    checksum_of(pseudo_bytes(src@, dst@, u.length) + u.bytes())
}

/// Whether `u` holds the fields read from the bytes `b`.
pub open spec fn udp_read_from(b: Seq<u8>, u: UdpDatagram) -> bool {
    &&& b.len() >= UDP_HEADER_LEN
    &&& u.source_port == be16(b[0], b[1])
    &&& u.dest_port == be16(b[2], b[3])
    &&& u.length == be16(b[4], b[5])
    &&& u.checksum == be16(b[6], b[7])
    &&& u.data == b.subrange(8, b.len() as int)
}

/// What parsing the bytes `b` as a datagram gives.
pub open spec fn parse_udp(b: Seq<u8>) -> Option<UdpDatagram> {
    if b.len() >= UDP_HEADER_LEN {
        Some(choose|u: UdpDatagram| udp_read_from(b, u))
    } else {
        None
    }
}

/// Parsing is a function of the bytes: two readings of one buffer agree.
pub proof fn lemma_udp_parse_deterministic(b: Seq<u8>, u: UdpDatagram, v: UdpDatagram)
    requires
        udp_read_from(b, u),
        udp_read_from(b, v),
    ensures
        u == v,
{
}

/// A datagram read back from its bytes is the datagram written.
pub proof fn lemma_udp_round_trip(u: UdpDatagram)
    ensures
        parse_udp(u.bytes()) == Some(u),
{
    let b = u.bytes();
    lemma_u16_round_trip(u.source_port);
    lemma_u16_round_trip(u.dest_port);
    lemma_u16_round_trip(u.length);
    lemma_u16_round_trip(u.checksum);
    assert(b[0] == u16_be(u.source_port)[0] && b[1] == u16_be(u.source_port)[1]);
    assert(b[2] == u16_be(u.dest_port)[0] && b[3] == u16_be(u.dest_port)[1]);
    assert(b[4] == u16_be(u.length)[0] && b[5] == u16_be(u.length)[1]);
    assert(b[6] == u16_be(u.checksum)[0] && b[7] == u16_be(u.checksum)[1]);
    assert(b.subrange(8, b.len() as int) =~= u.data);
    assert(udp_read_from(b, u));
    let v = choose|v: UdpDatagram| udp_read_from(b, v);
    lemma_udp_parse_deterministic(b, u, v);
}

/// The IP pseudo-header that the UDP checksum covers.
pub struct PseudoUpd {
    pub source_ip: [u8; 4],
    pub dest_ip: [u8; 4],
    pub padding: u8,
    pub protocol: u8,
    pub length: u16,
}

impl PseudoUpd {
    pub open spec fn spec_bytes(&self) -> Seq<u8> {
        self.source_ip@ + self.dest_ip@ + seq![self.padding, self.protocol] + u16_be(self.length)
    }

    /// The pseudo-header of `udp_header` sent from `source_ip` to `dest_ip`.
    pub fn new(source_ip: [u8; 4], dest_ip: [u8; 4], udp_header: &UdpHdr) -> (r: PseudoUpd)
        ensures
            r.source_ip == source_ip,
            r.dest_ip == dest_ip,
            r.padding == UDP_PADDING,
            r.protocol == UDP_PROTOCOL_NUMBER,
            r.length == udp_header.length,
            r.spec_bytes() == pseudo_bytes(source_ip@, dest_ip@, udp_header.length),
    {
        PseudoUpd {
            source_ip,
            dest_ip,
            padding: UDP_PADDING,
            protocol: UDP_PROTOCOL_NUMBER,
            length: udp_header.length,
        }
    }

    /// The pseudo-header as bytes.
    pub fn to_slice(&self) -> (r: Vec<u8>)
        ensures
            r@ == self.spec_bytes(),
    {
        let mut v: Vec<u8> = Vec::new();
        push_bytes(&mut v, self.source_ip.as_slice());
        push_bytes(&mut v, self.dest_ip.as_slice());
        v.push(self.padding);
        v.push(self.protocol);
        push_u16_be(&mut v, self.length);
        proof {
            assert(v@ =~= self.spec_bytes());
        }
        v
    }

    /// Sets the checksum of `udp_header` over this pseudo-header, the header
    /// as it stands and the data.
    pub fn calc_checksum(&self, udp_header: &mut UdpHdr)
        requires
            old(udp_header).data@.len() <= MAX_UDP_DATA_LEN,
        ensures
            final(udp_header)@ == (UdpDatagram {
                checksum: checksum_of(self.spec_bytes() + old(udp_header)@.bytes()),
                ..old(udp_header)@
            }),
    {
        let mut bytes = self.to_slice();
        let datagram = udp_header.to_slice();
        push_bytes(&mut bytes, datagram.as_slice());
        udp_header.checksum = checksum(bytes.as_slice());
    }
}

impl UdpHdr {
    /// An empty datagram with every field zero.
    pub fn new() -> (r: UdpHdr)
        ensures
            r@ == (UdpDatagram {
                source_port: 0,
                dest_port: 0,
                length: 0,
                checksum: 0,
                data: Seq::empty(),
            }),
    {
        let r = UdpHdr { source_port: 0x00, dest_port: 0x00, length: 0x00, checksum: 0x00, data: Vec::new() };
        assert(r.data@ =~= Seq::<u8>::empty());
        r
    }

    /// The datagram as bytes for the wire.
    pub fn to_slice(&self) -> (r: Vec<u8>)
        ensures
            r@ == self@.bytes(),
    {
        let mut v: Vec<u8> = Vec::new();
        push_u16_be(&mut v, self.source_port);
        push_u16_be(&mut v, self.dest_port);
        push_u16_be(&mut v, self.length);
        push_u16_be(&mut v, self.checksum);
        push_bytes(&mut v, self.data.as_slice());
        v
    }

    /// Sets the length field to the header and data length.
    pub fn calc_length(&mut self)
        requires
            old(self).data@.len() <= MAX_UDP_DATA_LEN,
        ensures
            final(self)@ == (UdpDatagram {
                length: (UDP_HEADER_LEN + old(self).data@.len()) as u16,
                ..old(self)@
            }),
    {
        self.length = (UDP_HEADER_LEN + self.data.len()) as u16;
    }

    /// Sets the checksum for this datagram sent from `source_ip` to
    /// `dest_ip`.
    pub fn cacl_checksum(&mut self, source_ip: [u8; 4], dest_ip: [u8; 4])
        requires
            old(self).data@.len() <= MAX_UDP_DATA_LEN,
        ensures
            final(self)@ == (UdpDatagram {
                checksum: udp_checksum(source_ip, dest_ip, old(self)@),
                ..old(self)@
            }),
    {
        let pseudo_udp = PseudoUpd::new(source_ip, dest_ip, self);
        pseudo_udp.calc_checksum(self);
    }

    /// A copy of the data.
    pub fn get_data(&self) -> (r: Vec<u8>)
        ensures
            r@ == self.data@,
    {
        copy_from(self.data.as_slice(), 0)
    }

    /// Reads a datagram; `None` for a buffer shorter than the header.
    pub fn parse_from_buf(buf: &[u8]) -> (r: Option<UdpHdr>)
        ensures
            match r {
                Some(u) => parse_udp(buf@) == Some(u@),
                None => parse_udp(buf@) is None,
            },
            r matches Some(u) ==> udp_read_from(buf@, u@),
    {
        if buf.len() < UDP_HEADER_LEN {
            return None;
        }
        let u = UdpHdr {
            source_port: read_u16_be(buf, 0),
            dest_port: read_u16_be(buf, 2),
            length: read_u16_be(buf, 4),
            checksum: read_u16_be(buf, 6),
            data: copy_from(buf, UDP_HEADER_LEN),
        };
        proof {
            let v = choose|v: UdpDatagram| udp_read_from(buf@, v);
            lemma_udp_parse_deterministic(buf@, u@, v);
        }
        Some(u)
    }
}

/// The datagram this host sends from `src_ip` to `dst_ip`, with its length
/// and checksum.
pub open spec fn outgoing_datagram(
    src_ip: [u8; 4],
    dst_ip: [u8; 4],
    source_port: u16,
    dest_port: u16,
    data: Seq<u8>,
) -> UdpDatagram {
    let u = UdpDatagram {
        source_port,
        dest_port,
        length: (UDP_HEADER_LEN + data.len()) as u16,
        checksum: 0,
        data,
    };
    UdpDatagram { checksum: udp_checksum(src_ip, dst_ip, u), ..u }
}

/// The frame that sends `data` from `source_port` to `dest_port` at
/// `dest_ip_addr`.
pub open spec fn udp_send_frame(
    stack: NetStack,
    source_port: u16,
    dest_port: u16,
    dest_ip_addr: [u8; 4],
    data: Seq<u8>,
) -> Seq<u8> {
    ip_send_frame(
        stack,
        IpProtocol::Udp,
        dest_ip_addr,
        outgoing_datagram(stack.my_ip, dest_ip_addr, source_port, dest_port, data).bytes(),
    )
}

/// The datagram answering `u`, carried by the packet `p`, with `payload`:
/// the ports swapped, and the checksum zero unless `UDP_REPLY_CHECKSUM`.
pub open spec fn reply_datagram(p: IpPacket, u: UdpDatagram, payload: Seq<u8>) -> UdpDatagram {
    let r = UdpDatagram {
        source_port: u.dest_port,
        dest_port: u.source_port,
        length: (UDP_HEADER_LEN + payload.len()) as u16,
        checksum: 0,
        data: payload,
    };
    if UDP_REPLY_CHECKSUM {
        UdpDatagram { checksum: udp_checksum(p.dst_ip_addr, p.src_ip_addr, r), ..r }
    } else {
        r
    }
}

/// The frame answering the datagram in `received` with `payload`, if its
/// packet and datagram parse and the IP layer answers it.
pub open spec fn udp_reply_frame(
    stack: NetStack,
    received: EthernetFrame,
    payload: Seq<u8>,
    check_dst: bool,
) -> Option<Seq<u8>> {
    match parse_ip(received.payload) {
        Some(p) => match parse_udp(p.payload) {
            Some(u) => ip_reply_frame(stack, received, reply_datagram(p, u, payload).bytes(), check_dst),
            None => None,
        },
        None => None,
    }
}

/// What handling the UDP frame `received` does to the stack `old`, giving
/// the stack `new` and the frame `r` to send: a datagram from the DHCP
/// server port to the DHCP client port goes to the DHCP client; any other
/// datagram, or bytes that do not parse, change nothing and send nothing.
pub open spec fn udp_receive_effect(
    old: NetStack,
    received: EthernetFrame,
    new: NetStack,
    r: Option<Vec<u8>>,
) -> bool {
    match parse_ip(received.payload) {
        Some(p) => match parse_udp(p.payload) {
            Some(u) => if u.source_port == DHCP_SERVER_PORT && u.dest_port == DHCP_CLIENT_PORT {
                dhcp_reply_effect(old, received, u.data, new, r)
            } else {
                new == old && r is None
            },
            None => new == old && r is None,
        },
        None => new == old && r is None,
    }
}

/// The frame that sends `data` from `source_port` to `dest_port` at
/// `dest_ip_addr`, with length and checksum filled in.
pub fn send_udp(
    stack: &NetStack,
    source_port: u16,
    dest_port: u16,
    dest_ip_addr: [u8; 4],
    data: Vec<u8>,
) -> (r: Vec<u8>)
    requires
        data@.len() <= MAX_UDP_DATA_LEN,
    ensures
        r@ == udp_send_frame(*stack, source_port, dest_port, dest_ip_addr, data@),
{
    let source_ip_addr: [u8; 4] = stack.my_ip;
    let mut udp_header = UdpHdr { source_port, dest_port, checksum: 0x00, length: 0x00, data };
    udp_header.calc_length();
    udp_header.cacl_checksum(source_ip_addr, dest_ip_addr);
    send_ip_packet(stack, IpProtocol::Udp, &dest_ip_addr, udp_header.to_slice())
}

/// Handles a UDP frame: a datagram from port 67 to port 68 goes to the
/// DHCP client; any other changes nothing and sends nothing.
pub fn receive_udp(stack: &mut NetStack, received_ethernet_header: &EthernetHdr) -> (r: Option<Vec<u8>>)
    requires
        old(stack).wf(),
    ensures
        final(stack).wf(),
        udp_receive_effect(*old(stack), received_ethernet_header@, *final(stack), r),
{
    let received_ip_header = match IpHdr::parsed_from_buf(received_ethernet_header.payload.as_slice()) {
        Some(h) => h,
        None => return None,
    };
    let received_udp_header = match UdpHdr::parse_from_buf(received_ip_header.payload.as_slice()) {
        Some(u) => u,
        None => return None,
    };
    if received_udp_header.source_port == DHCP_SERVER_PORT && received_udp_header.dest_port
        == DHCP_CLIENT_PORT {
        return reply_dhcp(stack, received_ethernet_header, received_udp_header.data.as_slice());
    }
    None
}

/// The frame answering the datagram in `received_ethernet_header` with
/// `upper_layer_payload`, the ports swapped. With `from_ip_check_flag` the
/// IP layer answers only a packet addressed to this host.
pub fn reply_udp(
    stack: &NetStack,
    received_ethernet_header: &EthernetHdr,
    upper_layer_payload: Vec<u8>,
    from_ip_check_flag: bool,
) -> (r: Option<Vec<u8>>)
    requires
        upper_layer_payload@.len() <= MAX_UDP_DATA_LEN,
    ensures
        frame_matches(
            r,
            udp_reply_frame(*stack, received_ethernet_header@, upper_layer_payload@, from_ip_check_flag),
        ),
{
    let received_ip_header = match IpHdr::parsed_from_buf(received_ethernet_header.payload.as_slice()) {
        Some(h) => h,
        None => return None,
    };
    let received_udp_header = match UdpHdr::parse_from_buf(received_ip_header.payload.as_slice()) {
        Some(u) => u,
        None => return None,
    };
    let mut reply_udp_header = UdpHdr {
        source_port: received_udp_header.dest_port,
        dest_port: received_udp_header.source_port,
        length: 0x00,
        checksum: 0x00,
        data: upper_layer_payload,
    };
    reply_udp_header.calc_length();
    if UDP_REPLY_CHECKSUM {
        reply_udp_header.cacl_checksum(received_ip_header.dst_ip_addr, received_ip_header.src_ip_addr);
    }
    if from_ip_check_flag {
        reply_ip_packet(stack, received_ethernet_header, reply_udp_header.to_slice())
    } else {
        reply_ip_packet_with_no_check_from_ip(stack, received_ethernet_header, reply_udp_header.to_slice())
    }
}

} // verus!
