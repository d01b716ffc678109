//! Ethernet framing: a frame is destination MAC, source MAC, a big-endian
//! ethertype and the payload.

use vstd::prelude::*;
use crate::net_util::{be16, copy_from, lemma_u16_round_trip, mac_at, push_bytes, push_u16_be, u16_be};

verus! {

pub const ETHERNET_TYPE_ARP: u16 = 0x0806;

pub const ETHERNET_TYPE_IP: u16 = 0x0800;

pub const HARDWARE_TYPE_ETHERNET: u16 = 0x01;

/// Length of the link-layer header.
pub const ETHERNET_HEADER_LEN: usize = 14;

/// A link-layer frame.
pub struct EthernetHdr {
    pub dst_mac_addr: [u8; 6],
    pub src_mac_addr: [u8; 6],
    pub ether_type: u16,
    pub payload: Vec<u8>,
}

/// What an `EthernetHdr` holds, with its payload as a sequence.
pub struct EthernetFrame {
    pub dst_mac_addr: [u8; 6],
    pub src_mac_addr: [u8; 6],
    pub ether_type: u16,
    pub payload: Seq<u8>,
}

impl View for EthernetHdr {
    type V = EthernetFrame;

    open spec fn view(&self) -> EthernetFrame {
        EthernetFrame {
            dst_mac_addr: self.dst_mac_addr,
            src_mac_addr: self.src_mac_addr,
            ether_type: self.ether_type,
            payload: self.payload@,
        }
    }
}

/// A frame on the wire: the two addresses, the ethertype, the payload.
pub open spec fn frame_bytes(dst: Seq<u8>, src: Seq<u8>, ether_type: u16, payload: Seq<u8>) -> Seq<
    u8,
> {
    dst + src + u16_be(ether_type) + payload
}

impl EthernetFrame {
    /// The frame on the wire.
    pub open spec fn bytes(self) -> Seq<u8> {
        frame_bytes(self.dst_mac_addr@, self.src_mac_addr@, self.ether_type, self.payload)
    }
}

/// The ethertypes this stack handles.
pub open spec fn known_ether_type(t: u16) -> bool {
    t == ETHERNET_TYPE_ARP || t == ETHERNET_TYPE_IP
}

/// Whether `b` is a frame that parsing accepts: a full header and a known
/// ethertype.
pub open spec fn frame_accepted(b: Seq<u8>) -> bool {
    b.len() >= ETHERNET_HEADER_LEN && known_ether_type(be16(b[12], b[13]))
}

/// Whether `f` holds the fields read from the frame bytes `b`.
pub open spec fn frame_read_from(b: Seq<u8>, f: EthernetFrame) -> bool {
    &&& b.len() >= ETHERNET_HEADER_LEN
    &&& f.dst_mac_addr@ == b.subrange(0, 6)
    &&& f.src_mac_addr@ == b.subrange(6, 12)
    &&& f.ether_type == be16(b[12], b[13])
    &&& f.payload == b.subrange(14, b.len() as int)
}

/// What parsing the frame bytes `b` gives.
pub open spec fn parse_frame(b: Seq<u8>) -> Option<EthernetFrame> {
    if frame_accepted(b) {
        Some(choose|f: EthernetFrame| frame_read_from(b, f))
    } else {
        None
    }
}

/// Whether the frame `r` to send is exactly the frame `f`, or both are
/// absent.
pub open spec fn frame_matches(r: Option<Vec<u8>>, f: Option<Seq<u8>>) -> bool {
    match f {
        Some(x) => r matches Some(v) && v@ == x,
        None => r is None,
    }
}

/// The broadcast hardware address.
pub fn broadcast_mac_addr() -> (r: [u8; 6])
    ensures
        r@ == seq![0xffu8, 0xff, 0xff, 0xff, 0xff, 0xff],
{
    let r = [0xffu8, 0xff, 0xff, 0xff, 0xff, 0xff];
    assert(r@ =~= seq![0xffu8, 0xff, 0xff, 0xff, 0xff, 0xff]);
    r
}

impl EthernetHdr {
    /// The frame as bytes for the wire.
    pub fn to_slice(&self) -> (r: Vec<u8>)
        ensures
            r@ == self@.bytes(),
    {
        let mut v: Vec<u8> = Vec::new();
        push_bytes(&mut v, self.dst_mac_addr.as_slice());
        push_bytes(&mut v, self.src_mac_addr.as_slice());
        push_u16_be(&mut v, self.ether_type);
        push_bytes(&mut v, self.payload.as_slice());
        v
    }

    pub fn get_src_mac_addr(&self) -> (r: &[u8; 6])
        ensures
            *r == self.src_mac_addr,
    {
        &self.src_mac_addr
    }

    pub fn is_arp_type(&self) -> (r: bool)
        ensures
            r == (self.ether_type == ETHERNET_TYPE_ARP),
    {
        self.ether_type == ETHERNET_TYPE_ARP
    }

    pub fn is_ip_type(&self) -> (r: bool)
        ensures
            r == (self.ether_type == ETHERNET_TYPE_IP),
    {
        self.ether_type == ETHERNET_TYPE_IP
    }

    pub fn get_type(&self) -> (r: u16)
        ensures
            r == self.ether_type,
    {
        self.ether_type
    }

    /// A copy of the payload.
    pub fn get_data(&self) -> (r: Vec<u8>)
        ensures
            r@ == self.payload@,
    {
        copy_from(self.payload.as_slice(), 0)
    }

    /// Reads a frame. Gives `None` for a frame shorter than the header or
    /// with an ethertype other than ARP and IP.
    pub fn parse_from_frame(frame: &[u8]) -> (r: Option<Self>)
        ensures
            match r {
                Some(h) => parse_frame(frame@) == Some(h@),
                None => parse_frame(frame@) is None,
            },
            r matches Some(h) ==> frame_read_from(frame@, h@),
    {
        if frame.len() < ETHERNET_HEADER_LEN {
            return None;
        }
        let ether_type = (frame[12] as u16) * 256 + frame[13] as u16;
        if ether_type == ETHERNET_TYPE_ARP || ether_type == ETHERNET_TYPE_IP {
            let h = EthernetHdr {
                dst_mac_addr: mac_at(frame, 0),
                src_mac_addr: mac_at(frame, 6),
                ether_type,
                payload: copy_from(frame, ETHERNET_HEADER_LEN),
            };
            proof {
                let g = choose|f: EthernetFrame| frame_read_from(frame@, f);
                lemma_frame_parse_deterministic(frame@, h@, g);
            }
            Some(h)
        } else {
            None
        }
    }

    /// The destination address of the frame in `buf`.
    pub fn get_dst_mac_addr_from_buf(buf: &[u8]) -> (r: [u8; 6])
        requires
            buf@.len() >= 6,
        ensures
            r@ == buf@.subrange(0, 6),
    {
        mac_at(buf, 0)
    }
}

/// The frame that carries `data` of type `protocol` from `src_mac_addr` to
/// `dst_mac_addr`. No length limit is enforced here.
pub fn send_ethernet_packet(
    src_mac_addr: [u8; 6],
    dst_mac_addr: [u8; 6],
    data: Vec<u8>,
    protocol: u16,
) -> (r: Vec<u8>)
    ensures
        r@ == frame_bytes(dst_mac_addr@, src_mac_addr@, protocol, data@),
{
    let ethernet_hdr = EthernetHdr { dst_mac_addr, src_mac_addr, ether_type: protocol, payload: data };
    ethernet_hdr.to_slice()
}

/// A frame of a known ethertype read back from its bytes is the frame that
/// was written.
pub proof fn lemma_frame_round_trip(f: EthernetFrame)
    requires
        known_ether_type(f.ether_type),
    ensures
        parse_frame(f.bytes()) == Some(f),
{
    let b = f.bytes();
    lemma_u16_round_trip(f.ether_type);
    assert(b.subrange(0, 6) =~= f.dst_mac_addr@);
    assert(b.subrange(6, 12) =~= f.src_mac_addr@);
    assert(b[12] == u16_be(f.ether_type)[0] && b[13] == u16_be(f.ether_type)[1]);
    assert(b.subrange(14, b.len() as int) =~= f.payload);
    assert(frame_read_from(b, f));
    let c = choose|h: EthernetFrame| frame_read_from(b, h);
    lemma_frame_parse_deterministic(b, c, f);
}

/// Parsing is a function of the bytes: two readings of one buffer agree.
pub proof fn lemma_frame_parse_deterministic(b: Seq<u8>, f: EthernetFrame, g: EthernetFrame)
    requires
        frame_read_from(b, f),
        frame_read_from(b, g),
    ensures
        f == g,
{
    assert(f.dst_mac_addr =~= g.dst_mac_addr);
    assert(f.src_mac_addr =~= g.src_mac_addr);
}

} // verus!
