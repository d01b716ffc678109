//! A small IPv4 network stack: Ethernet framing, ARP with its cache, IP,
//! ICMP echo, UDP and a DHCP client, all on plain byte buffers.
//!
//! The stack never touches hardware. Every operation that would put a frame
//! on the wire returns that frame instead; the caller hands it to the NIC.

pub mod net_util;
pub mod ethernet;
pub mod stack;
pub mod arp;
pub mod ip;
pub mod icmp;
pub mod dhcp;
pub mod udp;
pub mod e1000;
