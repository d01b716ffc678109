use rio_net::ethernet::{send_ethernet_packet, EthernetHdr, ETHERNET_TYPE_ARP, ETHERNET_TYPE_IP};

fn sample_frame(ether_type: u16) -> Vec<u8> {
    let mut f = vec![1u8, 2, 3, 4, 5, 6, 0x52, 0x54, 0, 0x12, 0x34, 0x56];
    f.push((ether_type >> 8) as u8);
    f.push(ether_type as u8);
    f.extend_from_slice(&[0xaa, 0xbb, 0xcc]);
    f
}

#[test]
fn parse_reads_every_field() {
    let h = EthernetHdr::parse_from_frame(&sample_frame(ETHERNET_TYPE_IP)).unwrap();
    assert_eq!(h.dst_mac_addr, [1, 2, 3, 4, 5, 6]);
    assert_eq!(*h.get_src_mac_addr(), [0x52, 0x54, 0, 0x12, 0x34, 0x56]);
    assert_eq!(h.get_type(), ETHERNET_TYPE_IP);
    assert!(h.is_ip_type());
    assert!(!h.is_arp_type());
    assert_eq!(h.get_data(), vec![0xaa, 0xbb, 0xcc]);
}

#[test]
fn parse_rejects_unknown_type_and_short_frames() {
    assert!(EthernetHdr::parse_from_frame(&sample_frame(0x86dd)).is_none());
    assert!(EthernetHdr::parse_from_frame(&sample_frame(ETHERNET_TYPE_ARP)[..13]).is_none());
    assert!(EthernetHdr::parse_from_frame(&[]).is_none());
    assert!(EthernetHdr::parse_from_frame(&sample_frame(ETHERNET_TYPE_ARP)).unwrap().is_arp_type());
}

#[test]
fn frame_round_trip() {
    let bytes = send_ethernet_packet(
        [0x52, 0x54, 0, 0x12, 0x34, 0x56],
        [1, 2, 3, 4, 5, 6],
        vec![9, 8, 7],
        ETHERNET_TYPE_ARP,
    );
    assert_eq!(bytes, vec![1, 2, 3, 4, 5, 6, 0x52, 0x54, 0, 0x12, 0x34, 0x56, 0x08, 0x06, 9, 8, 7]);
    let h = EthernetHdr::parse_from_frame(&bytes).unwrap();
    assert_eq!(h.to_slice(), bytes);
    assert_eq!(EthernetHdr::get_dst_mac_addr_from_buf(&bytes), [1, 2, 3, 4, 5, 6]);
}

#[test]
fn frame_parse_twice_agrees() {
    let bytes = sample_frame(ETHERNET_TYPE_IP);
    let a = EthernetHdr::parse_from_frame(&bytes).unwrap();
    let b = EthernetHdr::parse_from_frame(&bytes).unwrap();
    assert_eq!(a.to_slice(), b.to_slice());
    assert_eq!(a.dst_mac_addr, b.dst_mac_addr);
    assert_eq!(a.payload, b.payload);
}
