use rio_net::arp::{
    get_hardware_addr_from_ip_addr, get_ip_addr_from_hardware_addr, get_my_hard_and_ip_addr,
    receive_arp_packet, send_arp_packet, Arp, ArpTable, ArpTableEntry, ArpType, ARP_TABLE_NUM,
};
use rio_net::stack::NetStack;

const MY_MAC: [u8; 6] = [0x52, 0x54, 0x00, 0x12, 0x34, 0x56];
const PEER_MAC: [u8; 6] = [0x0a, 0x0b, 0x0c, 0x0d, 0x0e, 0x0f];

fn arp_bytes(opcode: u16, sha: [u8; 6], spa: [u8; 4], tha: [u8; 6], tpa: [u8; 4]) -> Vec<u8> {
    let mut v = vec![0x00, 0x01, 0x08, 0x00, 6, 4];
    v.extend_from_slice(&opcode.to_be_bytes());
    v.extend_from_slice(&sha);
    v.extend_from_slice(&spa);
    v.extend_from_slice(&tha);
    v.extend_from_slice(&tpa);
    v
}

#[test]
fn cache_admission_order() {
    let mut t = ArpTable::new();
    assert_eq!(t.entries.len(), ARP_TABLE_NUM);
    let a = [10, 0, 0, 1];
    let b = [10, 0, 0, 2];
    let c = [10, 0, 0, 3];
    assert_eq!(t.addable_idx(&a), 0);
    t.add(a, [1, 1, 1, 1, 1, 1]);
    assert_eq!(t.addable_idx(&b), 1);
    t.add(b, [2, 2, 2, 2, 2, 2]);
    t.add(c, [3, 3, 3, 3, 3, 3]);
    assert_eq!(t.entries[0].get_ip_addr(), a);
    assert_eq!(t.entries[1].get_ip_addr(), b);
    assert_eq!(t.entries[2].get_ip_addr(), c);
    assert!(t.entries[3].is_initial_state());
    t.add(a, [9, 9, 9, 9, 9, 9]);
    assert_eq!(t.entries[0].get_mac_addr(), [9, 9, 9, 9, 9, 9]);
    assert!(t.entries[3].is_initial_state());
    assert_eq!(t.get_mac_addr(&a), Some([9, 9, 9, 9, 9, 9]));
    assert_eq!(t.get_ip_addr(&[2, 2, 2, 2, 2, 2]), Some(b));
}

#[test]
fn full_cache_evicts_last_slot() {
    let mut t = ArpTable::new();
    for i in 0..ARP_TABLE_NUM {
        let ip = [10, 1, (i / 256) as u8, (i % 256) as u8];
        t.add(ip, [1, 2, 3, 4, (i / 256) as u8, (i % 256) as u8]);
    }
    assert!(t.entries.iter().all(|e| !e.is_initial_state()));
    let before = t.entries.clone();
    let d = [192, 168, 1, 1];
    assert_eq!(t.addable_idx(&d), ARP_TABLE_NUM - 1);
    t.add(d, [7, 7, 7, 7, 7, 7]);
    assert_eq!(t.entries[ARP_TABLE_NUM - 1].get_ip_addr(), d);
    for i in 0..ARP_TABLE_NUM - 1 {
        assert_eq!(t.entries[i].get_ip_addr(), before[i].get_ip_addr());
    }
}

#[test]
fn zero_addresses_never_match() {
    let t = ArpTable::new();
    assert_eq!(t.get_mac_addr(&[0, 0, 0, 0]), None);
    assert_eq!(t.get_ip_addr(&[0, 0, 0, 0, 0, 0]), None);
    assert!(t.get_entry_from_ip_addr(&[0, 0, 0, 0]).is_none());
    assert!(t.get_entry_from_mac_addr(&[0, 0, 0, 0, 0, 0]).is_none());
    let e = ArpTableEntry::new_const();
    assert!(e.is_initial_state());
    assert!(!e.same_ip_addr(&[0, 0, 0, 0]));
    assert!(!e.same_mac_addr(&[0, 0, 0, 0, 0, 0]));
}

#[test]
fn request_for_local_ip_gets_one_reply() {
    let mut stack = NetStack::new(MY_MAC);
    stack.my_ip = [10, 0, 0, 5];
    let req = arp_bytes(1, PEER_MAC, [10, 0, 0, 1], [0; 6], [10, 0, 0, 5]);
    let (entry, reply) = receive_arp_packet(&mut stack, &req);
    assert!(entry.is_none());
    let reply = reply.expect("a reply frame");
    assert_eq!(&reply[0..6], &PEER_MAC);
    assert_eq!(&reply[6..12], &MY_MAC);
    assert_eq!(&reply[12..14], &[0x08, 0x06]);
    assert_eq!(&reply[14..], &arp_bytes(2, MY_MAC, [10, 0, 0, 5], PEER_MAC, [10, 0, 0, 1])[..]);
    assert!(stack.arp_table.entries.iter().all(|e| e.is_initial_state()));
}

#[test]
fn request_for_other_ip_gets_no_reply() {
    let mut stack = NetStack::new(MY_MAC);
    stack.my_ip = [10, 0, 0, 5];
    let req = arp_bytes(1, PEER_MAC, [10, 0, 0, 1], [0; 6], [10, 0, 0, 9]);
    let (entry, reply) = receive_arp_packet(&mut stack, &req);
    assert!(entry.is_none());
    assert!(reply.is_none());
}

#[test]
fn reply_teaches_cache_both_pairs() {
    let mut stack = NetStack::new(MY_MAC);
    let rep = arp_bytes(2, PEER_MAC, [10, 0, 0, 1], MY_MAC, [10, 0, 0, 5]);
    let (entry, reply) = receive_arp_packet(&mut stack, &rep);
    assert!(reply.is_none());
    let entry = entry.unwrap();
    assert_eq!(entry.get_ip_addr(), [10, 0, 0, 1]);
    assert_eq!(entry.get_mac_addr(), PEER_MAC);
    assert_eq!(get_hardware_addr_from_ip_addr(&stack, &[10, 0, 0, 1]), Some(PEER_MAC));
    assert_eq!(get_ip_addr_from_hardware_addr(&stack, &MY_MAC), Some([10, 0, 0, 5]));
    assert_eq!(get_my_hard_and_ip_addr(&stack), (MY_MAC, Some([10, 0, 0, 5])));
}

#[test]
fn unknown_opcode_and_other_protocol_are_ignored() {
    let mut stack = NetStack::new(MY_MAC);
    let odd = arp_bytes(7, PEER_MAC, [10, 0, 0, 1], MY_MAC, [0, 0, 0, 0]);
    assert!(matches!(receive_arp_packet(&mut stack, &odd), (None, None)));
    let mut other = arp_bytes(1, PEER_MAC, [10, 0, 0, 1], MY_MAC, [0, 0, 0, 0]);
    other[2] = 0x86;
    other[3] = 0xdd;
    assert!(Arp::parse_buf(&other).is_none());
    assert!(Arp::parse_buf(&other[..27]).is_none());
    assert!(matches!(receive_arp_packet(&mut stack, &other), (None, None)));
}

#[test]
fn arp_packet_round_trip() {
    let bytes = arp_bytes(2, PEER_MAC, [10, 0, 0, 1], MY_MAC, [10, 0, 0, 5]);
    let a = Arp::parse_buf(&bytes).unwrap();
    assert_eq!(a.opcode, ArpType::ArpReply);
    assert_eq!(a.get_src_hardware_addr(), PEER_MAC);
    assert_eq!(a.to_slice(), bytes);
    let b = Arp::parse_buf(&bytes).unwrap();
    assert_eq!(b.to_slice(), a.to_slice());
    assert!(ArpType::is_reply(2));
    assert_eq!(ArpType::parse(9), ArpType::Unknown(9));
}

#[test]
fn request_is_broadcast() {
    let mut stack = NetStack::new(MY_MAC);
    stack.my_ip = [10, 0, 0, 5];
    let f = send_arp_packet(&stack, &[0; 6], &[10, 0, 0, 1]);
    assert_eq!(&f[0..6], &[0xff; 6]);
    assert_eq!(&f[14..], &arp_bytes(1, MY_MAC, [10, 0, 0, 5], [0; 6], [10, 0, 0, 1])[..]);
}
