use rio_net::stack::{receive_frame, NetStack};

const MY_MAC: [u8; 6] = [0x52, 0x54, 0x00, 0x12, 0x34, 0x56];
const PEER_MAC: [u8; 6] = [0x0a, 0x0b, 0x0c, 0x0d, 0x0e, 0x0f];

fn eth(ether_type: u16, payload: &[u8]) -> Vec<u8> {
    let mut v = MY_MAC.to_vec();
    v.extend_from_slice(&PEER_MAC);
    v.extend_from_slice(&ether_type.to_be_bytes());
    v.extend_from_slice(payload);
    v
}

fn ip(protocol: u8, payload: &[u8]) -> Vec<u8> {
    let len = (20 + payload.len()) as u16;
    let mut v = vec![0x45, 0x00];
    v.extend_from_slice(&len.to_be_bytes());
    v.extend_from_slice(&[0, 0, 0, 0, 64, protocol, 0, 0, 10, 0, 0, 1, 10, 0, 0, 5]);
    v.extend_from_slice(payload);
    v
}

fn stack() -> NetStack {
    let mut s = NetStack::new(MY_MAC);
    s.my_ip = [10, 0, 0, 5];
    s
}

#[test]
fn dispatch_arp_request() {
    let mut s = stack();
    let mut arp = vec![0, 1, 8, 0, 6, 4, 0, 1];
    arp.extend_from_slice(&PEER_MAC);
    arp.extend_from_slice(&[10, 0, 0, 1]);
    arp.extend_from_slice(&[0; 6]);
    arp.extend_from_slice(&[10, 0, 0, 5]);
    let reply = receive_frame(&mut s, &eth(0x0806, &arp)).unwrap();
    assert_eq!(&reply[0..6], &PEER_MAC);
    assert_eq!(&reply[20..22], &[0, 2]);
}

#[test]
fn dispatch_icmp_echo() {
    let mut s = stack();
    let reply = receive_frame(&mut s, &eth(0x0800, &ip(1, &[8, 0, 0xf7, 0xff, 0, 0, 0, 0]))).unwrap();
    assert_eq!(&reply[34..38], &[0, 0, 0xff, 0xff]);
}

#[test]
fn dispatch_drops_the_rest() {
    let mut s = stack();
    assert!(receive_frame(&mut s, &eth(0x86dd, &[0; 40])).is_none());
    assert!(receive_frame(&mut s, &eth(0x0800, &ip(6, &[0; 20]))).is_none());
    assert!(receive_frame(&mut s, &eth(0x0800, &[0x45, 0])).is_none());
    assert!(receive_frame(&mut s, &[1, 2, 3]).is_none());
    assert!(receive_frame(&mut s, &eth(0x0800, &ip(17, &[0, 53, 0, 68, 0, 8, 0, 0]))).is_none());
    assert_eq!(s.my_ip, [10, 0, 0, 5]);
}
