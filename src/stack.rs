//! The state that the layers share: this host's hardware address, its
//! leased IP address and the ARP cache.

use vstd::prelude::*;
use crate::arp::{arp_answer, arp_received_table, entry_is_initial, receive_arp_packet, ArpTable};
use crate::ethernet::{frame_matches, parse_frame, EthernetHdr, ETHERNET_TYPE_ARP};
use crate::icmp::{icmp_reply_frame, receive_icmp};
use crate::ip::{parse_ip, IpHdr, IpProtocol};
use crate::net_util::is_zero;
use crate::udp::{receive_udp, udp_receive_effect};

verus! {

/// The context every layer of the stack reads and updates.
pub struct NetStack {
    /// This host's hardware address, read from the NIC once.
    pub mac_addr: [u8; 6],
    /// This host's IP address: 0.0.0.0 until a DHCP server acknowledges a
    /// lease.
    pub my_ip: [u8; 4],
    pub arp_table: ArpTable,
}

impl NetStack {
    pub open spec fn wf(&self) -> bool {
        self.arp_table.wf()
    }

    /// A stack for the NIC with address `mac_addr`: no IP address yet and
    /// an empty cache.
    pub fn new(mac_addr: [u8; 6]) -> (r: NetStack)
        ensures
            r.wf(),
            r.mac_addr == mac_addr,
            is_zero(r.my_ip@),
            forall|i: int| 0 <= i < r.arp_table.entries@.len() ==> entry_is_initial(#[trigger] r.arp_table.entries@[i]),
    {
        NetStack { mac_addr, my_ip: [0u8, 0, 0, 0], arp_table: ArpTable::new() }
    }
}

/// What handling the frame bytes `frame` does to the stack `old`, giving the
/// stack `new` and the frame `r` to send. ARP goes to the ARP layer; an IP
/// packet goes to ICMP or UDP by its protocol field; anything else, or bytes
/// that do not parse, change nothing and send nothing.
pub open spec fn frame_effect(old: NetStack, frame: Seq<u8>, new: NetStack, r: Option<Vec<u8>>) -> bool {
    match parse_frame(frame) {
        Some(f) => if f.ether_type == ETHERNET_TYPE_ARP {
            &&& new.mac_addr == old.mac_addr
            &&& new.my_ip == old.my_ip
            &&& new.arp_table.entries@ == arp_received_table(old.arp_table.entries@, f.payload)
            &&& frame_matches(r, arp_answer(old, f.payload))
        } else {
            match parse_ip(f.payload) {
                Some(p) => if p.protocol == IpProtocol::Icmp {
                    new == old && frame_matches(r, icmp_reply_frame(old, f))
                } else if p.protocol == IpProtocol::Udp {
                    udp_receive_effect(old, f, new, r)
                } else {
                    new == old && r is None
                },
                None => new == old && r is None,
            }
        },
        None => new == old && r is None,
    }
}

/// Handles one frame from the NIC and gives the frame to send in answer,
/// if any.
pub fn receive_frame(stack: &mut NetStack, frame: &[u8]) -> (r: Option<Vec<u8>>)
    requires
        old(stack).wf(),
    ensures
        final(stack).wf(),
        frame_effect(*old(stack), frame@, *final(stack), r),
{
    let ethernet_header = match EthernetHdr::parse_from_frame(frame) {
        Some(h) => h,
        None => return None,
    };
    if ethernet_header.is_arp_type() {
        let (_, reply) = receive_arp_packet(stack, ethernet_header.payload.as_slice());
        return reply;
    }
    let ip_header = match IpHdr::parsed_from_buf(ethernet_header.payload.as_slice()) {
        Some(h) => h,
        None => return None,
    };
    if ip_header.is_icmp() {
        return receive_icmp(stack, &ethernet_header);
    }
    if ip_header.is_udp() {
        return receive_udp(stack, &ethernet_header);
    }
    None
}

} // verus!
