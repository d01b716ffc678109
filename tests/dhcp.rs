use rio_net::dhcp::{
    request_discover, reply_dhcp, Dhcp, DhcpFlags, DhcpHardType, DhcpHardwareLen, DhcpMessageType,
    DhcpOp, DhcpOption, DhcpOptionType, DHCP_OPTIONS_LEN, MAGIC_COOKIE,
};
use rio_net::ethernet::{EthernetHdr, ETHERNET_TYPE_IP};
use rio_net::ip::IpHdr;
use rio_net::stack::NetStack;
use rio_net::udp::{receive_udp, UdpHdr};

const MY_MAC: [u8; 6] = [0x52, 0x54, 0x00, 0x12, 0x34, 0x56];
const SERVER_MAC: [u8; 6] = [0x0a, 0x0b, 0x0c, 0x0d, 0x0e, 0x0f];

fn server_message(message_type: u8, yiaddr: [u8; 4]) -> Vec<u8> {
    let mut v = vec![2, 1, 6, 0, 0x12, 0x34, 0x56, 0x78, 0, 0, 0, 0];
    v.extend_from_slice(&[0, 0, 0, 0]);
    v.extend_from_slice(&yiaddr);
    v.extend_from_slice(&[10, 0, 0, 1]);
    v.extend_from_slice(&[0, 0, 0, 0]);
    v.extend_from_slice(&MY_MAC);
    v.extend_from_slice(&[0; 10]);
    v.extend_from_slice(&[0; 64]);
    v.extend_from_slice(&[0; 128]);
    v.extend_from_slice(&MAGIC_COOKIE.to_be_bytes());
    v.extend_from_slice(&[53, 1, message_type, 54, 4, 10, 0, 0, 1, 255]);
    v.resize(240 + 312, 0);
    v
}

fn carried(dhcp: &[u8], sp: u16, dp: u16) -> EthernetHdr {
    let mut u = Vec::new();
    u.extend_from_slice(&sp.to_be_bytes());
    u.extend_from_slice(&dp.to_be_bytes());
    u.extend_from_slice(&((8 + dhcp.len()) as u16).to_be_bytes());
    u.extend_from_slice(&[0, 0]);
    u.extend_from_slice(dhcp);
    let len = (20 + u.len()) as u16;
    let mut v = vec![0x45, 0x00];
    v.extend_from_slice(&len.to_be_bytes());
    v.extend_from_slice(&[0, 0, 0, 0, 64, 17, 0, 0, 10, 0, 0, 1, 255, 255, 255, 255]);
    v.extend_from_slice(&u);
    EthernetHdr { dst_mac_addr: [0xff; 6], src_mac_addr: SERVER_MAC, ether_type: ETHERNET_TYPE_IP, payload: v }
}

#[test]
fn offer_produces_request_for_offered_address() {
    let mut stack = NetStack::new(MY_MAC);
    let offer = carried(&server_message(2, [10, 0, 0, 5]), 67, 68);
    let frame = receive_udp(&mut stack, &offer).expect("a Request");
    assert_eq!(stack.my_ip, [0, 0, 0, 0]);
    assert_eq!(&frame[0..6], &SERVER_MAC);
    let ip = IpHdr::parsed_from_buf(&frame[14..]).unwrap();
    assert_eq!(ip.dst_ip_addr, [10, 0, 0, 1]);
    let udp = UdpHdr::parse_from_buf(&ip.payload).unwrap();
    assert_eq!(udp.source_port, 68);
    assert_eq!(udp.dest_port, 67);
    assert_eq!(udp.checksum, 0);
    let request = Dhcp::parsed_from_buf(&udp.data).unwrap();
    assert!(request.is_request());
    assert_eq!(request.dhcp_message_type(), Some(DhcpMessageType::Request));
    assert_eq!(request.opcode, DhcpOp::Request);
    assert_eq!(request.xid, 0x1234_5678);
    assert_eq!(request.yiaddr, [0, 0, 0, 0]);
    assert_eq!(request.ciaddr, [0, 0, 0, 0]);
    assert_eq!(request.giaddr, [0, 0, 0, 0]);
    assert_eq!(request.siaddr, [10, 0, 0, 1]);
    assert_eq!(&request.options[3..5], &[50, 4]);
    assert_eq!(&request.options[5..9], &[10, 0, 0, 5]);
    assert_eq!(request.options.len(), DHCP_OPTIONS_LEN);
}

#[test]
fn ack_sets_local_ip() {
    let mut stack = NetStack::new(MY_MAC);
    let ack = carried(&server_message(5, [10, 0, 0, 5]), 67, 68);
    assert!(receive_udp(&mut stack, &ack).is_none());
    assert_eq!(stack.my_ip, [10, 0, 0, 5]);
}

#[test]
fn nak_and_short_messages_change_nothing() {
    let mut stack = NetStack::new(MY_MAC);
    let nak = carried(&server_message(6, [10, 0, 0, 5]), 67, 68);
    assert!(reply_dhcp(&mut stack, &nak, &server_message(6, [10, 0, 0, 5])).is_none());
    assert_eq!(stack.my_ip, [0, 0, 0, 0]);
    assert!(reply_dhcp(&mut stack, &nak, &[2; 100]).is_none());
    assert_eq!(stack.my_ip, [0, 0, 0, 0]);
    let wrong_port = carried(&server_message(5, [10, 0, 0, 5]), 67, 69);
    assert!(receive_udp(&mut stack, &wrong_port).is_none());
    assert_eq!(stack.my_ip, [0, 0, 0, 0]);
}

#[test]
fn discover_layout() {
    let stack = NetStack::new(MY_MAC);
    let frame = request_discover(&stack, 0xdead_beef);
    assert_eq!(&frame[0..6], &[0xff; 6]);
    let ip = IpHdr::parsed_from_buf(&frame[14..]).unwrap();
    assert_eq!(ip.dst_ip_addr, [255, 255, 255, 255]);
    let udp = UdpHdr::parse_from_buf(&ip.payload).unwrap();
    assert_eq!((udp.source_port, udp.dest_port), (68, 67));
    let d = Dhcp::parsed_from_buf(&udp.data).unwrap();
    assert!(d.is_discover());
    assert_eq!(d.xid, 0xdead_beef);
    assert_eq!(&d.chaddr[..6], &MY_MAC);
    assert_eq!(d.magic_cookie, MAGIC_COOKIE);
    assert_eq!(
        &d.options[..17],
        &[53, 1, 1, 50, 4, 192, 168, 56, 103, 55, 4, 1, 3, 15, 6, 255, 0]
    );
    assert_eq!(d.options.len(), 312);
    assert!(d.options[17..].iter().all(|b| *b == 0));
}

#[test]
fn message_round_trip() {
    let bytes = server_message(2, [10, 0, 0, 5]);
    let d = Dhcp::parsed_from_buf(&bytes).unwrap();
    assert_eq!(d.opcode, DhcpOp::Reply);
    assert_eq!(d.htype, DhcpHardType::Ethernet);
    assert_eq!(d.hlen, DhcpHardwareLen::Ethernet);
    assert_eq!(d.flags, DhcpFlags::UniCasts);
    assert_eq!(d.chaddr[..6], MY_MAC);
    assert!(d.is_offer());
    assert!(!d.is_ack());
    assert!(!d.is_nak());
    assert!(!d.is_discover());
    assert_eq!(d.to_slice(), bytes);
    let again = Dhcp::parsed_from_buf(&bytes).unwrap();
    assert_eq!(again.to_slice(), d.to_slice());
    assert!(Dhcp::parsed_from_buf(&bytes[..239]).is_none());
}

#[test]
fn chaddr_keeps_all_sixteen_bytes() {
    let mut bytes = server_message(2, [10, 0, 0, 5]);
    bytes[43] = 0x77;
    let d = Dhcp::parsed_from_buf(&bytes).unwrap();
    assert_eq!(d.chaddr[15], 0x77);
    assert_eq!(Dhcp::pop_chaddr(&bytes[28..44])[15], 0x77);
    assert_eq!(Dhcp::pop_sname(&bytes[44..108]), [0; 64]);
    assert_eq!(Dhcp::pop_file(&bytes[108..236]), [0; 128]);
}

#[test]
fn option_scan_skips_and_stops() {
    let mut d = Dhcp::new(MY_MAC);
    d.options = vec![12, 3, b'a', b'b', b'c', 53, 1, 5, 255];
    assert_eq!(d.dhcp_message_type(), Some(DhcpMessageType::AcknowledgementAck));
    d.options = vec![12, 3, b'a', b'b', b'c', 255, 53, 1, 5];
    assert_eq!(d.dhcp_message_type(), None);
    d.options = vec![12, 200, 1];
    assert_eq!(d.dhcp_message_type(), None);
    d.options = vec![53, 1];
    assert_eq!(d.dhcp_message_type(), None);
    d.options = vec![];
    assert_eq!(d.dhcp_message_type(), None);
    d.options = vec![53, 1, 9];
    assert_eq!(d.dhcp_message_type(), Some(DhcpMessageType::Unknown(9)));
}

#[test]
fn option_types_and_encoding() {
    assert_eq!(DhcpOptionType::parse(53), DhcpOptionType::DhcpMessageType);
    assert_eq!(DhcpOptionType::parse(255), DhcpOptionType::End);
    assert_eq!(DhcpOptionType::parse(254), DhcpOptionType::Unknown(254));
    assert_eq!(DhcpOptionType::parse(121).get_u8(), 121);
    let o = DhcpOption::new(DhcpOptionType::RequestedIpAddress, vec![10, 0, 0, 5]);
    assert_eq!(o.len(), 6);
    assert_eq!(o.to_slice(), vec![50, 4, 10, 0, 0, 5]);
    let end = DhcpOption::new(DhcpOptionType::End, vec![]);
    assert_eq!(end.to_slice(), vec![255, 0]);
    assert_eq!(DhcpOp::parse(7), DhcpOp::Unknown(7));
    assert_eq!(DhcpFlags::parse(1), DhcpFlags::BroadCasts);
    assert_eq!(DhcpMessageType::parse(3), DhcpMessageType::Request);
}

#[test]
fn create_request_only_for_offers() {
    let mut d = Dhcp::new(MY_MAC);
    d.create_discover(7);
    let before = d.to_slice();
    d.create_request();
    assert_eq!(d.to_slice(), before);
    let mut offer = Dhcp::parsed_from_buf(&server_message(2, [10, 0, 0, 5])).unwrap();
    offer.create_request();
    assert!(offer.is_request());
    assert_eq!(&offer.options[..11], &[53, 1, 3, 50, 4, 10, 0, 0, 5, 255, 0]);
}
