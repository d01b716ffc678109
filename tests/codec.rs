use rio_net::e1000::{eeprom_read_command, eeprom_read_word, get_mac_addr};
use rio_net::net_util::{
    all_zero, bytes_equal, checksum, copy_from, push_u16_be, push_u32_be, read_u16_be,
    read_u32_be, switch_endian16, switch_endian32,
};

#[test]
fn endian32_reverses_bytes() {
    assert_eq!(switch_endian32(0xee11ff22), 0x22ff11ee);
    assert_eq!(switch_endian32(0x0000_0001), 0x0100_0000);
}

#[test]
fn endian16_swaps_bytes() {
    assert_eq!(switch_endian16(0xff22), 0x22ff);
    assert_eq!(switch_endian16(0x0001), 0x0100);
}

#[test]
fn big_endian_reads_and_writes() {
    let buf = [0x12u8, 0x34, 0x56, 0x78];
    assert_eq!(read_u16_be(&buf, 1), 0x3456);
    assert_eq!(read_u32_be(&buf, 0), 0x1234_5678);
    let mut v = Vec::new();
    push_u16_be(&mut v, 0xabcd);
    push_u32_be(&mut v, 0x0102_0304);
    assert_eq!(v, vec![0xab, 0xcd, 1, 2, 3, 4]);
}

#[test]
fn checksum_of_known_ip_header() {
    let hdr = [
        0x45u8, 0x00, 0x00, 0x73, 0x00, 0x00, 0x40, 0x00, 0x40, 0x11, 0x00, 0x00, 0xc0, 0xa8,
        0x00, 0x01, 0xc0, 0xa8, 0x00, 0xc7,
    ];
    assert_eq!(checksum(&hdr), 0xb861);
}

#[test]
fn checksum_pads_odd_byte() {
    assert_eq!(checksum(&[8, 0, 0, 0, 0x12, 0x34, 0, 1, 0x61, 0x62, 0x63]), 0x2168);
    assert_eq!(checksum(&[]), 0xffff);
    assert_eq!(checksum(&[0xff, 0xff, 0xff, 0xff, 0xff, 0xff]), 0x0000);
}

#[test]
fn byte_helpers() {
    assert!(bytes_equal(&[1, 2, 3], &[1, 2, 3]));
    assert!(!bytes_equal(&[1, 2, 3], &[1, 2, 4]));
    assert!(!bytes_equal(&[1, 2], &[1, 2, 3]));
    assert!(all_zero(&[0, 0, 0]));
    assert!(!all_zero(&[0, 1, 0]));
    assert_eq!(copy_from(&[1, 2, 3, 4], 2), vec![3, 4]);
}

#[test]
fn eeprom_words_give_mac() {
    assert_eq!(get_mac_addr(0x5452, 0x1200, 0x5634), [0x52, 0x54, 0x00, 0x12, 0x34, 0x56]);
    assert_eq!(eeprom_read_command(0x02), 0x0201);
    assert_eq!(eeprom_read_word(0x5452_0210), Some(0x5452));
    assert_eq!(eeprom_read_word(0x5452_0200), None);
}
