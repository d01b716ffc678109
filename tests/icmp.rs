use rio_net::ethernet::{EthernetHdr, ETHERNET_TYPE_IP};
use rio_net::icmp::{receive_icmp, send_icmp, EchoMessage, IcmpEchoType, IcmpHeader};
use rio_net::ip::{set_my_ip, IpHdr};
use rio_net::net_util::checksum;
use rio_net::stack::NetStack;

const MY_MAC: [u8; 6] = [0x52, 0x54, 0x00, 0x12, 0x34, 0x56];
const PEER_MAC: [u8; 6] = [0x0a, 0x0b, 0x0c, 0x0d, 0x0e, 0x0f];

fn echo_frame(icmp: &[u8], dst: [u8; 4]) -> EthernetHdr {
    let len = (20 + icmp.len()) as u16;
    let mut v = vec![0x45, 0x00];
    v.extend_from_slice(&len.to_be_bytes());
    v.extend_from_slice(&[0, 0, 0, 0, 64, 1, 0, 0, 10, 0, 0, 1]);
    v.extend_from_slice(&dst);
    v.extend_from_slice(icmp);
    EthernetHdr { dst_mac_addr: MY_MAC, src_mac_addr: PEER_MAC, ether_type: ETHERNET_TYPE_IP, payload: v }
}

fn stack() -> NetStack {
    let mut s = NetStack::new(MY_MAC);
    set_my_ip(&mut s, &[10, 0, 0, 5]);
    s
}

#[test]
fn echo_checksum_value() {
    let mut m = EchoMessage::new();
    m.identifier = 0x1234;
    m.sequence_num = 1;
    m.data = vec![0x61, 0x62, 0x63];
    m.calc_checksum();
    assert_eq!(m.icmp_header.checksum, 0x2168);
    let mut empty = EchoMessage::new();
    empty.calc_checksum();
    assert_eq!(empty.icmp_header.checksum, 0xf7ff);
}

#[test]
fn echo_round_trip() {
    let bytes = vec![8, 0, 0x21, 0x68, 0x12, 0x34, 0, 1, 0x61, 0x62, 0x63];
    let m = EchoMessage::parse_from_buf(&bytes).unwrap();
    assert_eq!(m.icmp_header.icmp_type, IcmpEchoType::EchoMessage);
    assert_eq!(m.identifier, 0x1234);
    assert_eq!(m.sequence_num, 1);
    assert_eq!(m.data, vec![0x61, 0x62, 0x63]);
    assert_eq!(m.to_slice(), bytes);
    assert!(EchoMessage::parse_from_buf(&bytes[..7]).is_none());
    let h = IcmpHeader::parse_from_buf(&bytes);
    assert_eq!(h.checksum, 0x2168);
    assert_eq!(IcmpHeader::check_type(0), IcmpEchoType::EchoReplyMessage);
    assert_eq!(IcmpHeader::check_type(42), IcmpEchoType::Unknown(42));
    assert_eq!(IcmpHeader::check_type_from_payload(&[30]), IcmpEchoType::Traceroute);
}

#[test]
fn echo_request_gets_reply() {
    let s = stack();
    let req = echo_frame(&[8, 0, 0x21, 0x68, 0x12, 0x34, 0, 1, 0x61, 0x62, 0x63], [10, 0, 0, 5]);
    let f = receive_icmp(&s, &req).unwrap();
    assert_eq!(&f[0..6], &PEER_MAC);
    let ip = IpHdr::parsed_from_buf(&f[14..]).unwrap();
    assert_eq!(ip.dst_ip_addr, [10, 0, 0, 1]);
    assert_eq!(ip.payload, vec![0, 0, 0x29, 0x68, 0x12, 0x34, 0, 1, 0x61, 0x62, 0x63]);
    assert_eq!(checksum(&ip.payload), 0);
}

#[test]
fn echo_reply_continues_sequence() {
    let s = stack();
    let rep = echo_frame(&[0, 0, 0x29, 0x68, 0x12, 0x34, 0, 1, 0x61, 0x62, 0x63], [10, 0, 0, 5]);
    let f = receive_icmp(&s, &rep).unwrap();
    let ip = IpHdr::parsed_from_buf(&f[14..]).unwrap();
    let m = EchoMessage::parse_from_buf(&ip.payload).unwrap();
    assert_eq!(m.icmp_header.icmp_type, IcmpEchoType::EchoMessage);
    assert_eq!(m.identifier, 0x1234);
    assert_eq!(m.sequence_num, 2);
    assert_eq!(checksum(&ip.payload), 0);
}

#[test]
fn icmp_ignored_cases() {
    let s = stack();
    let other = echo_frame(&[8, 0, 0, 0, 0, 0, 0, 0], [10, 0, 0, 9]);
    assert!(receive_icmp(&s, &other).is_none());
    let unreachable = echo_frame(&[3, 0, 0, 0, 0, 0, 0, 0], [10, 0, 0, 5]);
    assert!(receive_icmp(&s, &unreachable).is_none());
    let short = echo_frame(&[8, 0, 0], [10, 0, 0, 5]);
    assert!(receive_icmp(&s, &short).is_none());
}

#[test]
fn ping_is_broadcast_echo_request() {
    let s = stack();
    let f = send_icmp(&s, &[10, 0, 0, 1]);
    assert_eq!(&f[0..6], &[0xff; 6]);
    let ip = IpHdr::parsed_from_buf(&f[14..]).unwrap();
    assert!(ip.is_icmp());
    assert_eq!(ip.payload, vec![8, 0, 0xf7, 0xff, 0, 0, 0, 0]);
}
