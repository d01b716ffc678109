//! The decisions of the e1000 driver that do not touch the device: the
//! EEPROM read command, when a read is done, and the hardware address
//! stored in the EEPROM's first three words.

use vstd::prelude::*;

verus! {

/// Offset of the EEPROM read register.
pub const NIC_REG_EERD: u16 = 0x0014;

/// Bit that starts an EEPROM read.
pub const NIC_EERD_START: u32 = 1;

/// Bit the NIC sets once a read is done.
pub const NIC_EERD_DONE: u32 = 16;

/// How many times a driver polls EERD before it gives up on a read.
pub const EERD_TIMEOUT: usize = 1000000;

/// The EERD value that starts reading the EEPROM word at `eeprom_addr`: the
/// address in bits 8 to 15 and the start bit.
pub fn eeprom_read_command(eeprom_addr: u8) -> (r: u32)
    ensures
        r == eeprom_addr as u32 * 256 + NIC_EERD_START,
{
    (eeprom_addr as u32) * 256 + NIC_EERD_START
}

/// The EEPROM word in the EERD value `eerd`, once its done bit is set.
pub fn eeprom_read_word(eerd: u32) -> (r: Option<u16>)
    ensures
        r is Some <==> eerd & NIC_EERD_DONE == NIC_EERD_DONE,
        r matches Some(w) ==> w == eerd / 0x1_0000,
{
    if eerd & NIC_EERD_DONE == NIC_EERD_DONE {
        Some((eerd / 0x1_0000) as u16)
    } else {
        None
    }
}

/// The hardware address held by EEPROM words 0, 1 and 2, each word low byte
/// first.
pub fn get_mac_addr(mac_1_0: u16, mac_3_2: u16, mac_5_4: u16) -> (r: [u8; 6])
    ensures
        r@ == seq![
            (mac_1_0 % 256) as u8,
            (mac_1_0 / 256) as u8,
            (mac_3_2 % 256) as u8,
            (mac_3_2 / 256) as u8,
            (mac_5_4 % 256) as u8,
            (mac_5_4 / 256) as u8,
        ],
{
    let r = [
        (mac_1_0 % 256) as u8,
        (mac_1_0 / 256) as u8,
        (mac_3_2 % 256) as u8,
        (mac_3_2 / 256) as u8,
        (mac_5_4 % 256) as u8,
        (mac_5_4 / 256) as u8,
    ];
    assert(r@ =~= seq![
        (mac_1_0 % 256) as u8,
        (mac_1_0 / 256) as u8,
        (mac_3_2 % 256) as u8,
        (mac_3_2 / 256) as u8,
        (mac_5_4 % 256) as u8,
        (mac_5_4 / 256) as u8,
    ]);
    r
}

} // verus!
