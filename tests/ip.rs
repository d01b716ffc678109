use rio_net::arp::ArpTable;
use rio_net::ethernet::{EthernetHdr, ETHERNET_TYPE_IP};
use rio_net::ip::{
    get_my_ip, reply_ip_packet, reply_ip_packet_with_no_check_from_ip, send_ip_packet, set_my_ip,
    IpHdr, IpProtocol, VersionIhl,
};
use rio_net::net_util::checksum;
use rio_net::stack::NetStack;

const MY_MAC: [u8; 6] = [0x52, 0x54, 0x00, 0x12, 0x34, 0x56];
const PEER_MAC: [u8; 6] = [0x0a, 0x0b, 0x0c, 0x0d, 0x0e, 0x0f];

fn ip_bytes(ttl: u8, protocol: u8, src: [u8; 4], dst: [u8; 4], payload: &[u8]) -> Vec<u8> {
    let len = (20 + payload.len()) as u16;
    let mut v = vec![0x45, 0x00];
    v.extend_from_slice(&len.to_be_bytes());
    v.extend_from_slice(&[0x12, 0x34, 0x00, 0x00, ttl, protocol, 0x00, 0x00]);
    v.extend_from_slice(&src);
    v.extend_from_slice(&dst);
    v.extend_from_slice(payload);
    v
}

fn received(ip: Vec<u8>) -> EthernetHdr {
    EthernetHdr { dst_mac_addr: MY_MAC, src_mac_addr: PEER_MAC, ether_type: ETHERNET_TYPE_IP, payload: ip }
}

#[test]
fn header_checksum_literal() {
    let mut h = IpHdr::new();
    h.protocol = IpProtocol::Icmp;
    h.src_ip_addr = [10, 0, 0, 1];
    h.dst_ip_addr = [10, 0, 0, 2];
    h.set_payload(vec![0, 0, 0, 0]);
    h.calc_length();
    assert_eq!(h.length, 24);
    h.calc_checksum();
    assert_eq!(h.checksum, 0x88e3);
    let bytes = h.to_slice();
    assert_eq!(bytes.len(), 24);
    assert_eq!(checksum(&bytes[..20]), 0);
}

#[test]
fn known_header_checksum() {
    let hdr = [
        0x45u8, 0x00, 0x00, 0x73, 0x00, 0x00, 0x40, 0x00, 0x40, 0x11, 0x00, 0x00, 0xc0, 0xa8,
        0x00, 0x01, 0xc0, 0xa8, 0x00, 0xc7,
    ];
    let mut h = IpHdr::parsed_from_buf(&hdr).unwrap();
    h.calc_checksum();
    assert_eq!(h.checksum, 0xb861);
}

#[test]
fn ip_round_trip() {
    let bytes = ip_bytes(64, 17, [10, 0, 0, 1], [10, 0, 0, 2], &[1, 2, 3]);
    let h = IpHdr::parsed_from_buf(&bytes).unwrap();
    assert_eq!(h.version_ihl, VersionIhl::Ip);
    assert_eq!(h.identifier, 0x1234);
    assert_eq!(h.ttl, 64);
    assert!(h.is_udp());
    assert!(!h.is_tcp());
    assert!(!h.is_icmp());
    assert_eq!(*h.get_type(), IpProtocol::Udp);
    assert_eq!(h.get_src_ip_addr(), [10, 0, 0, 1]);
    assert_eq!(h.get_dst_ip_addr(), [10, 0, 0, 2]);
    assert_eq!(h.get_data(), vec![1, 2, 3]);
    assert_eq!(h.to_slice(), bytes);
    let again = IpHdr::parsed_from_buf(&bytes).unwrap();
    assert_eq!(again.to_slice(), h.to_slice());
}

#[test]
fn ip_parse_rejects_short_and_keeps_unknown_codes() {
    assert!(IpHdr::parsed_from_buf(&[0x45; 19]).is_none());
    let mut bytes = ip_bytes(64, 99, [10, 0, 0, 1], [10, 0, 0, 2], &[]);
    bytes[0] = 0x46;
    let h = IpHdr::parsed_from_buf(&bytes).unwrap();
    assert_eq!(h.protocol, IpProtocol::Unknown(99));
    assert_eq!(h.version_ihl, VersionIhl::Unknown(0x46));
    assert_eq!(h.to_slice(), bytes);
    assert_eq!(IpProtocol::parse(6), IpProtocol::Tcp);
    assert!(IpProtocol::Udp.equals(IpProtocol::Udp));
    assert!(!IpProtocol::Udp.equals(IpProtocol::Icmp));
    assert_eq!(VersionIhl::parse(0x95).get_u8(), 0x95);
}

#[test]
fn fragment_flag_bookkeeping() {
    let mut h = IpHdr::new();
    assert!(!h.check_fragment_on());
    h.fragment_on();
    assert!(h.check_fragment_on());
    assert_eq!(h.flag_flagment_offset, 0b010);
    assert!(!h.check_last_packet());
    h.last_packet_on();
    assert!(h.check_last_packet());
    h.fragment_off();
    assert!(!h.check_fragment_on());
    assert_eq!(h.flag_flagment_offset, 0b100);
    assert!(!h.get_offset());
}

#[test]
fn send_uses_cache_or_broadcast() {
    let mut stack = NetStack::new(MY_MAC);
    set_my_ip(&mut stack, &[10, 0, 0, 5]);
    assert_eq!(get_my_ip(&stack), [10, 0, 0, 5]);
    let f = send_ip_packet(&stack, IpProtocol::Udp, &[10, 0, 0, 1], vec![7, 7]);
    assert_eq!(&f[0..6], &[0xff; 6]);
    assert_eq!(&f[12..14], &[0x08, 0x00]);
    let ip = IpHdr::parsed_from_buf(&f[14..]).unwrap();
    assert_eq!(ip.ttl, 30);
    assert_eq!(ip.length, 22);
    assert_eq!(ip.src_ip_addr, [10, 0, 0, 5]);
    assert_eq!(ip.dst_ip_addr, [10, 0, 0, 1]);
    assert_eq!(checksum(&f[14..34]), 0);
    stack.arp_table.add([10, 0, 0, 1], PEER_MAC);
    let f = send_ip_packet(&stack, IpProtocol::Udp, &[10, 0, 0, 1], vec![7, 7]);
    assert_eq!(&f[0..6], &PEER_MAC);
    let f = send_ip_packet(&stack, IpProtocol::Icmp, &[10, 0, 0, 1], vec![7, 7]);
    assert_eq!(&f[0..6], &[0xff; 6]);
}

#[test]
fn send_prefers_cached_own_address() {
    let mut stack = NetStack::new(MY_MAC);
    set_my_ip(&mut stack, &[10, 0, 0, 5]);
    stack.arp_table.add([10, 0, 0, 77], MY_MAC);
    let f = send_ip_packet(&stack, IpProtocol::Tcp, &[10, 0, 0, 1], vec![]);
    assert_eq!(&f[26..30], &[10, 0, 0, 77]);
    let t = ArpTable::new();
    assert!(t.get_ip_addr(&MY_MAC).is_none());
}

#[test]
fn reply_swaps_addresses_and_decrements_ttl() {
    let mut stack = NetStack::new(MY_MAC);
    set_my_ip(&mut stack, &[10, 0, 0, 5]);
    let r = received(ip_bytes(64, 1, [10, 0, 0, 1], [10, 0, 0, 5], &[1, 2, 3, 4]));
    let f = reply_ip_packet(&stack, &r, vec![9, 9]).unwrap();
    assert_eq!(&f[0..6], &PEER_MAC);
    assert_eq!(&f[6..12], &MY_MAC);
    let ip = IpHdr::parsed_from_buf(&f[14..]).unwrap();
    assert_eq!(ip.ttl, 63);
    assert_eq!(ip.identifier, 0x1234);
    assert_eq!(ip.src_ip_addr, [10, 0, 0, 5]);
    assert_eq!(ip.dst_ip_addr, [10, 0, 0, 1]);
    assert_eq!(ip.payload, vec![9, 9]);
    assert_eq!(ip.length, 22);
    assert_eq!(checksum(&f[14..34]), 0);
}

#[test]
fn reply_checks_destination_address() {
    let mut stack = NetStack::new(MY_MAC);
    set_my_ip(&mut stack, &[10, 0, 0, 5]);
    let r = received(ip_bytes(64, 17, [10, 0, 0, 1], [10, 0, 0, 9], &[]));
    assert!(reply_ip_packet(&stack, &r, vec![1]).is_none());
    let f = reply_ip_packet_with_no_check_from_ip(&stack, &r, vec![1]).unwrap();
    assert_eq!(&f[0..6], &PEER_MAC);
    let dead = received(ip_bytes(0, 17, [10, 0, 0, 1], [10, 0, 0, 5], &[]));
    assert!(reply_ip_packet(&stack, &dead, vec![1]).is_none());
    let short = received(vec![0x45; 10]);
    assert!(reply_ip_packet_with_no_check_from_ip(&stack, &short, vec![1]).is_none());
}
