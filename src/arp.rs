//! ARP: the packets that map IP addresses to hardware addresses, and the
//! cache of the pairs learned.

use vstd::prelude::*;
use crate::ethernet::{
    broadcast_mac_addr, frame_bytes, frame_matches, send_ethernet_packet, ETHERNET_TYPE_ARP, ETHERNET_TYPE_IP,
    HARDWARE_TYPE_ETHERNET,
};
use crate::net_util::{
    all_zero, be16, bytes_equal, ip_at, is_zero, lemma_u16_round_trip, mac_at, push_bytes,
    push_u16_be, read_u16_be, u16_be,
};
use crate::stack::NetStack;

verus! {

/// Number of slots in the cache.
pub const ARP_TABLE_NUM: usize = 512;

/// Length of an ARP packet for Ethernet and IPv4.
pub const ARP_PACKET_LEN: usize = 28;

pub const ARP_OPCODE_REQUEST: u16 = 1;

pub const ARP_OPCODE_REPLY: u16 = 2;

/// The operation of an ARP packet.
#[derive(Clone, Copy, Debug, PartialEq, Eq, Structural)]
pub enum ArpType {
    ArpRequest,
    ArpReply,
    /// An operation code this stack does not handle.
    Unknown(u16),
}

/// The operation that the code `opcode` stands for.
pub open spec fn arp_type_of(opcode: u16) -> ArpType {
    if opcode == ARP_OPCODE_REQUEST {
        ArpType::ArpRequest
    } else if opcode == ARP_OPCODE_REPLY {
        ArpType::ArpReply
    } else {
        ArpType::Unknown(opcode)
    }
}

impl ArpType {
    /// The operation code on the wire.
    pub open spec fn spec_code(self) -> u16 {
        match self {
            ArpType::ArpRequest => ARP_OPCODE_REQUEST,
            ArpType::ArpReply => ARP_OPCODE_REPLY,
            ArpType::Unknown(c) => c,
        }
    }

    /// `Unknown` holds only codes that no other variant stands for.
    pub open spec fn well_formed(self) -> bool {
        match self {
            ArpType::Unknown(c) => c != ARP_OPCODE_REQUEST && c != ARP_OPCODE_REPLY,
            _ => true,
        }
    }

    pub fn is_reply(opcode: u16) -> (r: bool)
        ensures
            r == (opcode == ARP_OPCODE_REPLY),
    {
        opcode == ARP_OPCODE_REPLY
    }

    pub fn parse(opcode: u16) -> (r: ArpType)
        ensures
            r == arp_type_of(opcode),
    {
        if opcode == ARP_OPCODE_REQUEST {
            ArpType::ArpRequest
        } else if Self::is_reply(opcode) {
            ArpType::ArpReply
        } else {
            ArpType::Unknown(opcode)
        }
    }

    pub fn code(&self) -> (r: u16)
        ensures
            r == self.spec_code(),
    {
        match self {
            ArpType::ArpRequest => ARP_OPCODE_REQUEST,
            ArpType::ArpReply => ARP_OPCODE_REPLY,
            ArpType::Unknown(c) => *c,
        }
    }
}

/// One resolved pair of an IP address and a hardware address. The all-zero
/// entry marks an empty slot.
#[derive(Clone, Copy, Debug)]
pub struct ArpTableEntry {
    pub ip_addr: [u8; 4],
    pub mac_addr: [u8; 6],
}

/// Whether `e` is an empty slot.
pub open spec fn entry_is_initial(e: ArpTableEntry) -> bool {
    is_zero(e.ip_addr@) && is_zero(e.mac_addr@)
}

/// Whether `e` holds the IP address `ip`; the zero address matches nothing.
pub open spec fn entry_has_ip(e: ArpTableEntry, ip: Seq<u8>) -> bool {
    !is_zero(ip) && ip == e.ip_addr@
}

/// Whether `e` holds the hardware address `mac`; the zero address matches
/// nothing.
pub open spec fn entry_has_mac(e: ArpTableEntry, mac: Seq<u8>) -> bool {
    !is_zero(mac) && mac == e.mac_addr@
}

impl ArpTableEntry {
    pub fn new_const() -> (r: ArpTableEntry)
        ensures
            entry_is_initial(r),
    {
        ArpTableEntry { ip_addr: [0u8, 0, 0, 0], mac_addr: [0u8, 0, 0, 0, 0, 0] }
    }

    pub fn is_initial_state(&self) -> (r: bool)
        ensures
            r == entry_is_initial(*self),
    {
        all_zero(self.ip_addr.as_slice()) && all_zero(self.mac_addr.as_slice())
    }

    pub fn same_ip_addr(&self, ip: &[u8; 4]) -> (r: bool)
        ensures
            r == entry_has_ip(*self, ip@),
    {
        if all_zero(ip.as_slice()) {
            return false;
        }
        bytes_equal(ip.as_slice(), self.ip_addr.as_slice())
    }

    pub fn same_mac_addr(&self, mac_addr: &[u8; 6]) -> (r: bool)
        ensures
            r == entry_has_mac(*self, mac_addr@),
    {
        if all_zero(mac_addr.as_slice()) {
            return false;
        }
        bytes_equal(mac_addr.as_slice(), self.mac_addr.as_slice())
    }

    pub fn get_ip_addr(&self) -> (r: [u8; 4])
        ensures
            r == self.ip_addr,
    {
        self.ip_addr
    }

    pub fn get_mac_addr(&self) -> (r: [u8; 6])
        ensures
            r == self.mac_addr,
    {
        self.mac_addr
    }
}

/// Whether a new pair for `ip` may go into slot `e`: it is empty or already
/// holds `ip`.
pub open spec fn addable(e: ArpTableEntry, ip: Seq<u8>) -> bool {
    entry_is_initial(e) || entry_has_ip(e, ip)
}

/// The first slot from `i` on that may take `ip`, or the last slot when
/// none may.
pub open spec fn addable_from(es: Seq<ArpTableEntry>, ip: Seq<u8>, i: nat) -> int
    decreases es.len() - i,
{
    if i >= es.len() {
        es.len() - 1
    } else if addable(es[i as int], ip) {
        i as int
    } else {
        addable_from(es, ip, i + 1)
    }
}

/// The slot that a new pair for `ip` goes into.
pub open spec fn addable_index(es: Seq<ArpTableEntry>, ip: Seq<u8>) -> int {
    addable_from(es, ip, 0)
}

/// The cache after storing the pair (`ip`, `mac`).
pub open spec fn table_add(es: Seq<ArpTableEntry>, ip: [u8; 4], mac: [u8; 6]) -> Seq<
    ArpTableEntry,
> {
    es.update(addable_index(es, ip@), ArpTableEntry { ip_addr: ip, mac_addr: mac })
}

/// The first slot from `i` on that holds `ip`.
pub open spec fn find_ip_from(es: Seq<ArpTableEntry>, ip: Seq<u8>, i: nat) -> Option<int>
    decreases es.len() - i,
{
    if i >= es.len() {
        None
    } else if entry_has_ip(es[i as int], ip) {
        Some(i as int)
    } else {
        find_ip_from(es, ip, i + 1)
    }
}

/// The first slot from `i` on that holds `mac`.
pub open spec fn find_mac_from(es: Seq<ArpTableEntry>, mac: Seq<u8>, i: nat) -> Option<int>
    decreases es.len() - i,
{
    if i >= es.len() {
        None
    } else if entry_has_mac(es[i as int], mac) {
        Some(i as int)
    } else {
        find_mac_from(es, mac, i + 1)
    }
}

/// The first entry that holds `ip`.
pub open spec fn entry_for_ip(es: Seq<ArpTableEntry>, ip: Seq<u8>) -> Option<ArpTableEntry> {
    match find_ip_from(es, ip, 0) {
        Some(k) => Some(es[k]),
        None => None,
    }
}

/// The first entry that holds `mac`.
pub open spec fn entry_for_mac(es: Seq<ArpTableEntry>, mac: Seq<u8>) -> Option<ArpTableEntry> {
    match find_mac_from(es, mac, 0) {
        Some(k) => Some(es[k]),
        None => None,
    }
}

/// The hardware address cached for `ip`.
pub open spec fn mac_for_ip(es: Seq<ArpTableEntry>, ip: Seq<u8>) -> Option<[u8; 6]> {
    match entry_for_ip(es, ip) {
        Some(e) => Some(e.mac_addr),
        None => None,
    }
}

/// The IP address cached for `mac`.
pub open spec fn ip_for_mac(es: Seq<ArpTableEntry>, mac: Seq<u8>) -> Option<[u8; 4]> {
    match entry_for_mac(es, mac) {
        Some(e) => Some(e.ip_addr),
        None => None,
    }
}

/// A fixed number of slots of `ArpTableEntry`, searched front to back.
pub struct ArpTable {
    pub entries: Vec<ArpTableEntry>,
}

impl ArpTable {
    pub open spec fn wf(&self) -> bool {
        self.entries@.len() == ARP_TABLE_NUM
    }

    /// A cache with every slot empty.
    pub fn new() -> (r: ArpTable)
        ensures
            r.wf(),
            forall|i: int| 0 <= i < r.entries@.len() ==> entry_is_initial(#[trigger] r.entries@[i]),
    {
        let mut entries: Vec<ArpTableEntry> = Vec::new();
        let mut i: usize = 0;
        while i < ARP_TABLE_NUM
            invariant
                i <= ARP_TABLE_NUM,
                entries@.len() == i,
                forall|k: int| 0 <= k < i ==> entry_is_initial(#[trigger] entries@[k]),
            decreases ARP_TABLE_NUM - i,
        {
            entries.push(ArpTableEntry::new_const());
            i = i + 1;
        }
        ArpTable { entries }
    }

    /// The slot for a pair with IP address `ip`: the first empty slot or the
    /// first that already holds `ip`, else the last slot.
    pub fn addable_idx(&self, ip: &[u8; 4]) -> (r: usize)
        requires
            self.wf(),
        ensures
            r == addable_index(self.entries@, ip@),
            r < ARP_TABLE_NUM,
    {
        let mut i: usize = 0;
        while i < self.entries.len()
            invariant
                self.wf(),
                i <= self.entries@.len(),
                addable_index(self.entries@, ip@) == addable_from(self.entries@, ip@, i as nat),
            decreases self.entries@.len() - i,
        {
            let entry = &self.entries[i];
            if entry.is_initial_state() {
                return i;
            }
            if entry.same_ip_addr(ip) {
                return i;
            }
            i = i + 1;
        }
        self.entries.len() - 1
    }

    /// Stores the pair (`ip_addr`, `mac_addr`) in the slot `addable_idx`
    /// picks.
    pub fn add(&mut self, ip_addr: [u8; 4], mac_addr: [u8; 6])
        requires
            old(self).wf(),
        ensures
            final(self).wf(),
            final(self).entries@ == table_add(old(self).entries@, ip_addr, mac_addr),
    {
        let idx = self.addable_idx(&ip_addr);
        self.entries.set(idx, ArpTableEntry { ip_addr, mac_addr });
    }

    pub fn get_mac_addr(&self, ip_addr: &[u8; 4]) -> (r: Option<[u8; 6]>)
        ensures
            r == mac_for_ip(self.entries@, ip_addr@),
    {
        match self.get_entry_from_ip_addr(ip_addr) {
            Some(e) => Some(e.mac_addr),
            None => None,
        }
    }

    pub fn get_ip_addr(&self, mac_addr: &[u8; 6]) -> (r: Option<[u8; 4]>)
        ensures
            r == ip_for_mac(self.entries@, mac_addr@),
    {
        match self.get_entry_from_mac_addr(mac_addr) {
            Some(e) => Some(e.ip_addr),
            None => None,
        }
    }

    pub fn get_entry_from_ip_addr(&self, ip_addr: &[u8; 4]) -> (r: Option<ArpTableEntry>)
        ensures
            r == entry_for_ip(self.entries@, ip_addr@),
    {
        let mut i: usize = 0;
        while i < self.entries.len()
            invariant
                i <= self.entries@.len(),
                find_ip_from(self.entries@, ip_addr@, 0) == find_ip_from(
                    self.entries@,
                    ip_addr@,
                    i as nat,
                ),
            decreases self.entries@.len() - i,
        {
            if self.entries[i].same_ip_addr(ip_addr) {
                return Some(self.entries[i]);
            }
            i = i + 1;
        }
        None
    }

    pub fn get_entry_from_mac_addr(&self, mac_addr: &[u8; 6]) -> (r: Option<ArpTableEntry>)
        ensures
            r == entry_for_mac(self.entries@, mac_addr@),
    {
        let mut i: usize = 0;
        while i < self.entries.len()
            invariant
                i <= self.entries@.len(),
                find_mac_from(self.entries@, mac_addr@, 0) == find_mac_from(
                    self.entries@,
                    mac_addr@,
                    i as nat,
                ),
            decreases self.entries@.len() - i,
        {
            if self.entries[i].same_mac_addr(mac_addr) {
                return Some(self.entries[i]);
            }
            i = i + 1;
        }
        None
    }
}

/// An ARP packet.
#[derive(Clone, Copy, Debug)]
pub struct Arp {
    pub hardware_type: u16,
    pub protocol: u16,
    pub hardware_addr_len: u8,
    pub protocol_addr_len: u8,
    pub opcode: ArpType,
    pub src_hardware_addr: [u8; 6],
    pub src_protocol_addr: [u8; 4],
    pub dst_hardware_addr: [u8; 6],
    pub dst_protocol_addr: [u8; 4],
}

/// An ARP packet on the wire, field by field.
pub open spec fn arp_wire(
    hardware_type: u16,
    protocol: u16,
    hardware_addr_len: u8,
    protocol_addr_len: u8,
    opcode: u16,
    src_hw: Seq<u8>,
    src_ip: Seq<u8>,
    dst_hw: Seq<u8>,
    dst_ip: Seq<u8>,
) -> Seq<u8> {
    u16_be(hardware_type) + u16_be(protocol) + seq![hardware_addr_len, protocol_addr_len] + u16_be(
        opcode,
    ) + src_hw + src_ip + dst_hw + dst_ip
}

/// An ARP packet of this stack: Ethernet addresses for IPv4.
pub open spec fn arp_ipv4_wire(
    opcode: u16,
    src_hw: Seq<u8>,
    src_ip: Seq<u8>,
    dst_hw: Seq<u8>,
    dst_ip: Seq<u8>,
) -> Seq<u8> {
    arp_wire(HARDWARE_TYPE_ETHERNET, ETHERNET_TYPE_IP, 6, 4, opcode, src_hw, src_ip, dst_hw, dst_ip)
}

impl Arp {
    pub open spec fn spec_bytes(self) -> Seq<u8> {
        arp_wire(
            self.hardware_type,
            self.protocol,
            self.hardware_addr_len,
            self.protocol_addr_len,
            self.opcode.spec_code(),
            self.src_hardware_addr@,
            self.src_protocol_addr@,
            self.dst_hardware_addr@,
            self.dst_protocol_addr@,
        )
    }

    /// A packet that reads back as itself: it is for IP, and its operation
    /// is stored in the variant that stands for it.
    pub open spec fn well_formed(self) -> bool {
        self.protocol == ETHERNET_TYPE_IP && self.opcode.well_formed()
    }
}

/// Whether parsing accepts `b`: a full packet whose protocol is IP.
pub open spec fn arp_accepted(b: Seq<u8>) -> bool {
    b.len() >= ARP_PACKET_LEN && be16(b[2], b[3]) == ETHERNET_TYPE_IP
}

/// Whether `a` holds the fields read from the bytes `b`.
pub open spec fn arp_read_from(b: Seq<u8>, a: Arp) -> bool {
    &&& b.len() >= ARP_PACKET_LEN
    &&& a.hardware_type == be16(b[0], b[1])
    &&& a.protocol == be16(b[2], b[3])
    &&& a.hardware_addr_len == b[4]
    &&& a.protocol_addr_len == b[5]
    &&& a.opcode == arp_type_of(be16(b[6], b[7]))
    &&& a.src_hardware_addr@ == b.subrange(8, 14)
    &&& a.src_protocol_addr@ == b.subrange(14, 18)
    &&& a.dst_hardware_addr@ == b.subrange(18, 24)
    &&& a.dst_protocol_addr@ == b.subrange(24, 28)
}

/// What parsing the bytes `b` as an ARP packet gives.
pub open spec fn parse_arp(b: Seq<u8>) -> Option<Arp> {
    if arp_accepted(b) {
        Some(choose|a: Arp| arp_read_from(b, a))
    } else {
        None
    }
}

/// Parsing is a function of the bytes: two readings of one buffer agree.
pub proof fn lemma_arp_parse_deterministic(b: Seq<u8>, a: Arp, c: Arp)
    requires
        arp_read_from(b, a),
        arp_read_from(b, c),
    ensures
        a == c,
{
    assert(a.src_hardware_addr =~= c.src_hardware_addr);
    assert(a.src_protocol_addr =~= c.src_protocol_addr);
    assert(a.dst_hardware_addr =~= c.dst_hardware_addr);
    assert(a.dst_protocol_addr =~= c.dst_protocol_addr);
}

/// A well-formed packet read back from its bytes is the packet written.
pub proof fn lemma_arp_round_trip(a: Arp)
    requires
        a.well_formed(),
    ensures
        parse_arp(a.spec_bytes()) == Some(a),
{
    let b = a.spec_bytes();
    lemma_u16_round_trip(a.hardware_type);
    lemma_u16_round_trip(a.protocol);
    lemma_u16_round_trip(a.opcode.spec_code());
    assert(b[0] == u16_be(a.hardware_type)[0] && b[1] == u16_be(a.hardware_type)[1]);
    assert(b[2] == u16_be(a.protocol)[0] && b[3] == u16_be(a.protocol)[1]);
    assert(b[6] == u16_be(a.opcode.spec_code())[0] && b[7] == u16_be(a.opcode.spec_code())[1]);
    assert(b.subrange(8, 14) =~= a.src_hardware_addr@);
    assert(b.subrange(14, 18) =~= a.src_protocol_addr@);
    assert(b.subrange(18, 24) =~= a.dst_hardware_addr@);
    assert(b.subrange(24, 28) =~= a.dst_protocol_addr@);
    assert(arp_read_from(b, a));
    let c = choose|c: Arp| arp_read_from(b, c);
    lemma_arp_parse_deterministic(b, a, c);
}

impl Arp {
    /// The packet as bytes for the wire.
    pub fn to_slice(&self) -> (r: Vec<u8>)
        ensures
            r@ == self.spec_bytes(),
    {
        let mut v: Vec<u8> = Vec::new();
        push_u16_be(&mut v, self.hardware_type);
        push_u16_be(&mut v, self.protocol);
        v.push(self.hardware_addr_len);
        v.push(self.protocol_addr_len);
        push_u16_be(&mut v, self.opcode.code());
        push_bytes(&mut v, self.src_hardware_addr.as_slice());
        push_bytes(&mut v, self.src_protocol_addr.as_slice());
        push_bytes(&mut v, self.dst_hardware_addr.as_slice());
        push_bytes(&mut v, self.dst_protocol_addr.as_slice());
        proof {
            assert(v@ =~= self.spec_bytes());
        }
        v
    }

    /// Reads an ARP packet. Gives `None` for a buffer shorter than a packet
    /// or a protocol other than IP.
    pub fn parse_buf(data: &[u8]) -> (r: Option<Arp>)
        ensures
            r == parse_arp(data@),
    {
        if data.len() < ARP_PACKET_LEN {
            return None;
        }
        let protocol = read_u16_be(data, 2);
        if protocol != ETHERNET_TYPE_IP {
            return None;
        }
        let a = Arp {
            hardware_type: read_u16_be(data, 0),
            protocol,
            hardware_addr_len: data[4],
            protocol_addr_len: data[5],
            opcode: ArpType::parse(read_u16_be(data, 6)),
            src_hardware_addr: mac_at(data, 8),
            src_protocol_addr: ip_at(data, 14),
            dst_hardware_addr: mac_at(data, 18),
            dst_protocol_addr: ip_at(data, 24),
        };
        proof {
            let c = choose|c: Arp| arp_read_from(data@, c);
            lemma_arp_parse_deterministic(data@, a, c);
        }
        Some(a)
    }

    pub fn get_src_hardware_addr(&self) -> (r: [u8; 6])
        ensures
            r == self.src_hardware_addr,
    {
        self.src_hardware_addr
    }
}

/// The broadcast frame asking who holds `dst_ip`.
pub open spec fn arp_request_frame(stack: NetStack, dst_hw: Seq<u8>, dst_ip: Seq<u8>) -> Seq<u8> {
    frame_bytes(
        seq![0xffu8, 0xff, 0xff, 0xff, 0xff, 0xff],
        stack.mac_addr@,
        ETHERNET_TYPE_ARP,
        arp_ipv4_wire(ARP_OPCODE_REQUEST, stack.mac_addr@, stack.my_ip@, dst_hw, dst_ip),
    )
}

/// The frame answering the request `a` with this host's addresses.
pub open spec fn arp_reply_frame(stack: NetStack, a: Arp) -> Seq<u8> {
    frame_bytes(
        a.src_hardware_addr@,
        stack.mac_addr@,
        ETHERNET_TYPE_ARP,
        arp_ipv4_wire(
            ARP_OPCODE_REPLY,
            stack.mac_addr@,
            stack.my_ip@,
            a.src_hardware_addr@,
            a.src_protocol_addr@,
        ),
    )
}

/// The cache after learning both pairs of the reply `a`.
pub open spec fn table_after_reply(es: Seq<ArpTableEntry>, a: Arp) -> Seq<ArpTableEntry> {
    table_add(
        table_add(es, a.src_protocol_addr, a.src_hardware_addr),
        a.dst_protocol_addr,
        a.dst_hardware_addr,
    )
}

/// The cache after receiving the ARP bytes `buf`: a reply adds both of its
/// pairs; anything else leaves it as it was.
pub open spec fn arp_received_table(es: Seq<ArpTableEntry>, buf: Seq<u8>) -> Seq<ArpTableEntry> {
    match parse_arp(buf) {
        Some(a) => if a.opcode == ArpType::ArpReply {
            table_after_reply(es, a)
        } else {
            es
        },
        None => es,
    }
}

/// The entry that receiving the ARP bytes `buf` reports, `es` being the
/// cache afterwards: for a reply, the entry cached for its sender.
pub open spec fn arp_learned_entry(es: Seq<ArpTableEntry>, buf: Seq<u8>) -> Option<ArpTableEntry> {
    match parse_arp(buf) {
        Some(a) => if a.opcode == ArpType::ArpReply {
            entry_for_ip(es, a.src_protocol_addr@)
        } else {
            None
        },
        None => None,
    }
}

/// The frame that receiving the ARP bytes `buf` sends: a reply to a request
/// for this host's IP address, and nothing otherwise.
pub open spec fn arp_answer(stack: NetStack, buf: Seq<u8>) -> Option<Seq<u8>> {
    match parse_arp(buf) {
        Some(a) => if a.opcode == ArpType::ArpRequest && a.dst_protocol_addr@ == stack.my_ip@ {
            Some(arp_reply_frame(stack, a))
        } else {
            None
        },
        None => None,
    }
}

/// The broadcast request that asks who holds `dst_protocol_addr`, sent from
/// this host's addresses.
pub fn send_arp_packet(stack: &NetStack, dst_hardware_addr: &[u8; 6], dst_protocol_addr: &[u8; 4]) -> (r:
    Vec<u8>)
    ensures
        r@ == arp_request_frame(*stack, dst_hardware_addr@, dst_protocol_addr@),
{
    let arp_packet = Arp {
        hardware_type: HARDWARE_TYPE_ETHERNET,
        protocol: ETHERNET_TYPE_IP,
        hardware_addr_len: 6,
        protocol_addr_len: 4,
        opcode: ArpType::ArpRequest,
        src_hardware_addr: stack.mac_addr,
        src_protocol_addr: stack.my_ip,
        dst_hardware_addr: *dst_hardware_addr,
        dst_protocol_addr: *dst_protocol_addr,
    };
    let v = arp_packet.to_slice();
    let r = send_ethernet_packet(stack.mac_addr, broadcast_mac_addr(), v, ETHERNET_TYPE_ARP);
    r
}

/// Handles an ARP packet addressed to this host. A request for this host's
/// IP address gets a reply frame; a reply teaches the cache both of its
/// pairs and gives the cached entry of its sender. Anything else, or a
/// buffer that does not parse, changes nothing.
pub fn receive_arp_packet(stack: &mut NetStack, buf: &[u8]) -> (r: (
    Option<ArpTableEntry>,
    Option<Vec<u8>>,
))
    requires
        old(stack).wf(),
    ensures
        final(stack).wf(),
        final(stack).mac_addr == old(stack).mac_addr,
        final(stack).my_ip == old(stack).my_ip,
        final(stack).arp_table.entries@ == arp_received_table(old(stack).arp_table.entries@, buf@),
        r.0 == arp_learned_entry(final(stack).arp_table.entries@, buf@),
        frame_matches(r.1, arp_answer(*old(stack), buf@)),
{
    match Arp::parse_buf(buf) {
        Some(arp) => match arp.opcode {
            ArpType::ArpReply => (receive_arp_reply(stack, arp), None),
            ArpType::ArpRequest => (None, send_reply_arp(stack, arp)),
            ArpType::Unknown(_) => (None, None),
        },
        None => (None, None),
    }
}

/// The reply to the request `arp`, when it asks for this host's IP address.
pub fn send_reply_arp(stack: &NetStack, arp: Arp) -> (r: Option<Vec<u8>>)
    ensures
        r is Some <==> arp.dst_protocol_addr@ == stack.my_ip@,
        r matches Some(f) ==> f@ == arp_reply_frame(*stack, arp),
{
    if !bytes_equal(arp.dst_protocol_addr.as_slice(), stack.my_ip.as_slice()) {
        return None;
    }
    let arp_packet = Arp {
        hardware_type: HARDWARE_TYPE_ETHERNET,
        protocol: ETHERNET_TYPE_IP,
        hardware_addr_len: 6,
        protocol_addr_len: 4,
        opcode: ArpType::ArpReply,
        src_hardware_addr: stack.mac_addr,
        src_protocol_addr: stack.my_ip,
        dst_hardware_addr: arp.src_hardware_addr,
        dst_protocol_addr: arp.src_protocol_addr,
    };
    let v = arp_packet.to_slice();
    Some(send_ethernet_packet(stack.mac_addr, arp_packet.dst_hardware_addr, v, ETHERNET_TYPE_ARP))
}

/// Learns both pairs of the reply `arp` and gives the entry now cached for
/// its sender.
pub fn receive_arp_reply(stack: &mut NetStack, arp: Arp) -> (r: Option<ArpTableEntry>)
    requires
        old(stack).wf(),
    ensures
        final(stack).wf(),
        final(stack).mac_addr == old(stack).mac_addr,
        final(stack).my_ip == old(stack).my_ip,
        final(stack).arp_table.entries@ == table_after_reply(old(stack).arp_table.entries@, arp),
        r == entry_for_ip(final(stack).arp_table.entries@, arp.src_protocol_addr@),
{
    stack.arp_table.add(arp.src_protocol_addr, arp.src_hardware_addr);
    stack.arp_table.add(arp.dst_protocol_addr, arp.dst_hardware_addr);
    stack.arp_table.get_entry_from_ip_addr(&arp.src_protocol_addr)
}

/// This host's hardware address, with the IP address the cache holds for
/// it, if any.
pub fn get_my_hard_and_ip_addr(stack: &NetStack) -> (r: ([u8; 6], Option<[u8; 4]>))
    ensures
        r.0 == stack.mac_addr,
        r.1 == ip_for_mac(stack.arp_table.entries@, stack.mac_addr@),
{
    let my_hardware_addr = stack.mac_addr;
    let my_ip_addr = get_ip_addr_from_hardware_addr(stack, &my_hardware_addr);
    (my_hardware_addr, my_ip_addr)
}

pub fn get_ip_addr_from_hardware_addr(stack: &NetStack, hardware_addr: &[u8; 6]) -> (r: Option<
    [u8; 4],
>)
    ensures
        r == ip_for_mac(stack.arp_table.entries@, hardware_addr@),
{
    stack.arp_table.get_ip_addr(hardware_addr)
}

pub fn get_hardware_addr_from_ip_addr(stack: &NetStack, ip_addr: &[u8; 4]) -> (r: Option<[u8; 6]>)
    ensures
        r == mac_for_ip(stack.arp_table.entries@, ip_addr@),
{
    stack.arp_table.get_mac_addr(ip_addr)
}

/// A reply to an ARP request goes to the requester's hardware address, and
/// tells it this host's hardware and IP addresses.
pub proof fn lemma_arp_reply_goes_to_requester(stack: NetStack, a: Arp)
    ensures
        arp_reply_frame(stack, a).subrange(0, 6) == a.src_hardware_addr@,
        arp_reply_frame(stack, a).subrange(6, 12) == stack.mac_addr@,
        parse_arp(arp_reply_frame(stack, a).subrange(14, 42)) == Some(
            Arp {
                hardware_type: HARDWARE_TYPE_ETHERNET,
                protocol: ETHERNET_TYPE_IP,
                hardware_addr_len: 6,
                protocol_addr_len: 4,
                opcode: ArpType::ArpReply,
                src_hardware_addr: stack.mac_addr,
                src_protocol_addr: stack.my_ip,
                dst_hardware_addr: a.src_hardware_addr,
                dst_protocol_addr: a.src_protocol_addr,
            },
        ),
{
    let reply = Arp {
        hardware_type: HARDWARE_TYPE_ETHERNET,
        protocol: ETHERNET_TYPE_IP,
        hardware_addr_len: 6,
        protocol_addr_len: 4,
        opcode: ArpType::ArpReply,
        src_hardware_addr: stack.mac_addr,
        src_protocol_addr: stack.my_ip,
        dst_hardware_addr: a.src_hardware_addr,
        dst_protocol_addr: a.src_protocol_addr,
    };
    let f = arp_reply_frame(stack, a);
    assert(f.subrange(0, 6) =~= a.src_hardware_addr@);
    assert(f.subrange(6, 12) =~= stack.mac_addr@);
    assert(f.subrange(14, 42) =~= reply.spec_bytes());
    lemma_arp_round_trip(reply);
}

/// Whether `es` is a cache with every slot empty.
pub open spec fn table_is_empty(es: Seq<ArpTableEntry>) -> bool {
    &&& es.len() == ARP_TABLE_NUM
    &&& forall|i: int| 0 <= i < es.len() ==> entry_is_initial(#[trigger] es[i])
}

/// An entry for a nonzero address is not an empty slot.
proof fn lemma_entry_not_initial(ip: [u8; 4], mac: [u8; 6])
    requires
        !is_zero(ip@),
    ensures
        !entry_is_initial(ArpTableEntry { ip_addr: ip, mac_addr: mac }),
{
}

/// Three different nonzero addresses stored in an empty cache take slots 0,
/// 1 and 2 in that order; storing the first again with another hardware
/// address overwrites slot 0 and leaves the others as they were.
pub proof fn lemma_arp_admission_in_order(
    es: Seq<ArpTableEntry>,
    a: [u8; 4],
    b: [u8; 4],
    c: [u8; 4],
    ma: [u8; 6],
    mb: [u8; 6],
    mc: [u8; 6],
    ma2: [u8; 6],
)
    requires
        table_is_empty(es),
        !is_zero(a@),
        !is_zero(b@),
        !is_zero(c@),
        a@ != b@,
        a@ != c@,
        b@ != c@,
    ensures
        addable_index(es, a@) == 0,
        addable_index(table_add(es, a, ma), b@) == 1,
        addable_index(table_add(table_add(es, a, ma), b, mb), c@) == 2,
        table_add(table_add(table_add(es, a, ma), b, mb), c, mc) == es.update(
            0,
            ArpTableEntry { ip_addr: a, mac_addr: ma },
        ).update(1, ArpTableEntry { ip_addr: b, mac_addr: mb }).update(
            2,
            ArpTableEntry { ip_addr: c, mac_addr: mc },
        ),
        table_add(table_add(table_add(table_add(es, a, ma), b, mb), c, mc), a, ma2) == table_add(
            table_add(table_add(es, a, ma), b, mb),
            c,
            mc,
        ).update(0, ArpTableEntry { ip_addr: a, mac_addr: ma2 }),
{
    let ea = ArpTableEntry { ip_addr: a, mac_addr: ma };
    let eb = ArpTableEntry { ip_addr: b, mac_addr: mb };
    let ec = ArpTableEntry { ip_addr: c, mac_addr: mc };
    lemma_entry_not_initial(a, ma);
    lemma_entry_not_initial(b, mb);
    lemma_entry_not_initial(c, mc);
    assert(entry_is_initial(es[0]));
    assert(addable_from(es, a@, 0) == 0);
    let t1 = table_add(es, a, ma);
    assert(t1 == es.update(0, ea));
    assert(entry_is_initial(es[1]));
    assert(!addable(t1[0], b@));
    assert(addable_from(t1, b@, 1) == 1);
    assert(addable_from(t1, b@, 0) == 1);
    let t2 = table_add(t1, b, mb);
    assert(t2 == t1.update(1, eb));
    assert(entry_is_initial(es[2]));
    assert(!addable(t2[0], c@));
    assert(!addable(t2[1], c@));
    assert(addable_from(t2, c@, 2) == 2);
    assert(addable_from(t2, c@, 1) == 2);
    assert(addable_from(t2, c@, 0) == 2);
    let t3 = table_add(t2, c, mc);
    assert(t3 == t2.update(2, ec));
    assert(addable(t3[0], a@));
    assert(addable_from(t3, a@, 0) == 0);
}

/// When no slot from `i` on may take `ip`, the pair goes to the last slot.
proof fn lemma_addable_from_none(es: Seq<ArpTableEntry>, ip: Seq<u8>, i: nat)
    requires
        forall|k: int| i <= k < es.len() ==> !addable(#[trigger] es[k], ip),
    ensures
        addable_from(es, ip, i) == es.len() - 1,
    decreases es.len() - i,
{
    if i < es.len() {
        lemma_addable_from_none(es, ip, i + 1);
    }
}

/// In a cache whose slots are all taken by other addresses, a new address
/// evicts the last slot and no other.
pub proof fn lemma_arp_full_table_evicts_last(es: Seq<ArpTableEntry>, d: [u8; 4], md: [u8; 6])
    requires
        es.len() == ARP_TABLE_NUM,
        forall|i: int|
            0 <= i < es.len() ==> !entry_is_initial(#[trigger] es[i]) && es[i].ip_addr@ != d@,
    ensures
        addable_index(es, d@) == ARP_TABLE_NUM - 1,
        table_add(es, d, md) == es.update(
            ARP_TABLE_NUM - 1,
            ArpTableEntry { ip_addr: d, mac_addr: md },
        ),
{
    lemma_addable_from_none(es, d@, 0);
}

} // verus!
