use rio_net::ethernet::{EthernetHdr, ETHERNET_TYPE_IP};
use rio_net::ip::{set_my_ip, IpHdr};
use rio_net::net_util::checksum;
use rio_net::stack::NetStack;
use rio_net::udp::{receive_udp, reply_udp, send_udp, PseudoUpd, UdpHdr};

const MY_MAC: [u8; 6] = [0x52, 0x54, 0x00, 0x12, 0x34, 0x56];
const PEER_MAC: [u8; 6] = [0x0a, 0x0b, 0x0c, 0x0d, 0x0e, 0x0f];

fn udp_frame(sp: u16, dp: u16, data: &[u8]) -> EthernetHdr {
    let mut u = Vec::new();
    u.extend_from_slice(&sp.to_be_bytes());
    u.extend_from_slice(&dp.to_be_bytes());
    u.extend_from_slice(&((8 + data.len()) as u16).to_be_bytes());
    u.extend_from_slice(&[0, 0]);
    u.extend_from_slice(data);
    let len = (20 + u.len()) as u16;
    let mut v = vec![0x45, 0x00];
    v.extend_from_slice(&len.to_be_bytes());
    v.extend_from_slice(&[0, 0, 0, 0, 64, 17, 0, 0, 10, 0, 0, 1, 10, 0, 0, 5]);
    v.extend_from_slice(&u);
    EthernetHdr { dst_mac_addr: MY_MAC, src_mac_addr: PEER_MAC, ether_type: ETHERNET_TYPE_IP, payload: v }
}

fn stack() -> NetStack {
    let mut s = NetStack::new(MY_MAC);
    set_my_ip(&mut s, &[10, 0, 0, 5]);
    s
}

#[test]
fn udp_checksum_over_pseudo_header() {
    let mut u = UdpHdr::new();
    u.source_port = 1000;
    u.dest_port = 2000;
    u.data = vec![1, 2, 3];
    u.calc_length();
    assert_eq!(u.length, 11);
    u.cacl_checksum([10, 0, 0, 1], [10, 0, 0, 2]);
    assert_eq!(u.checksum, 0xdc1b);
    let p = PseudoUpd::new([10, 0, 0, 1], [10, 0, 0, 2], &u);
    assert_eq!(p.to_slice(), vec![10, 0, 0, 1, 10, 0, 0, 2, 0, 17, 0, 11]);
}

#[test]
fn udp_round_trip() {
    let bytes = vec![0x03, 0xe8, 0x07, 0xd0, 0, 11, 0xdc, 0x1b, 1, 2, 3];
    let u = UdpHdr::parse_from_buf(&bytes).unwrap();
    assert_eq!(u.source_port, 1000);
    assert_eq!(u.dest_port, 2000);
    assert_eq!(u.get_data(), vec![1, 2, 3]);
    assert_eq!(u.to_slice(), bytes);
    assert!(UdpHdr::parse_from_buf(&bytes[..7]).is_none());
    let again = UdpHdr::parse_from_buf(&bytes).unwrap();
    assert_eq!(again.to_slice(), u.to_slice());
}

#[test]
fn send_udp_fills_length_and_checksum() {
    let s = stack();
    let f = send_udp(&s, 1000, 2000, [10, 0, 0, 2], vec![1, 2, 3]);
    let ip = IpHdr::parsed_from_buf(&f[14..]).unwrap();
    assert!(ip.is_udp());
    let u = UdpHdr::parse_from_buf(&ip.payload).unwrap();
    assert_eq!(u.length, 11);
    let mut pseudo = vec![10, 0, 0, 5, 10, 0, 0, 2, 0, 17, 0, 11];
    pseudo.extend_from_slice(&ip.payload);
    assert_eq!(checksum(&pseudo), 0);
}

#[test]
fn other_ports_have_no_effect() {
    let mut s = stack();
    for (sp, dp) in [(67u16, 69u16), (68, 67), (53, 68), (1000, 2000)] {
        let f = udp_frame(sp, dp, &[1, 2, 3]);
        assert!(receive_udp(&mut s, &f).is_none());
        assert_eq!(s.my_ip, [10, 0, 0, 5]);
        assert!(s.arp_table.entries.iter().all(|e| e.is_initial_state()));
    }
}

#[test]
fn reply_udp_swaps_ports_and_leaves_checksum_zero() {
    let s = stack();
    let f = udp_frame(1000, 2000, &[1, 2, 3]);
    let r = reply_udp(&s, &f, vec![4, 5], true).unwrap();
    let ip = IpHdr::parsed_from_buf(&r[14..]).unwrap();
    assert_eq!(ip.payload, vec![0x07, 0xd0, 0x03, 0xe8, 0, 10, 0, 0, 4, 5]);
    let mut elsewhere = udp_frame(1000, 2000, &[]);
    elsewhere.payload[19] = 9;
    assert!(reply_udp(&s, &elsewhere, vec![4, 5], true).is_none());
    assert!(reply_udp(&s, &elsewhere, vec![4, 5], false).is_some());
}
