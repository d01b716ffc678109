//! ICMP echo: requests and replies, their checksum, and the answer this host
//! gives to each.

use vstd::prelude::*;
use crate::ethernet::{frame_matches, EthernetFrame, EthernetHdr};
use crate::ip::{
    ip_reply_frame, ip_send_frame, parse_ip, reply_ip_packet, send_ip_packet, IpHdr, IpProtocol,
    MAX_IP_PAYLOAD_LEN,
};
use crate::net_util::{
    be16, checksum, checksum_of, copy_from, lemma_u16_round_trip, push_bytes, push_u16_be,
    read_u16_be, u16_be,
};
use crate::stack::NetStack;

verus! {

/// Length of the echo header: type, code, checksum, identifier, sequence.
pub const ECHO_HEADER_LEN: usize = 8;

/// The type of an ICMP message.
#[derive(Clone, Copy, Debug, PartialEq, Eq, Structural)]
pub enum IcmpEchoType {
    EchoReplyMessage,
    DestinationUnreachableMessage,
    SourceQuenchMessage,
    RedirectMessage,
    EchoMessage,
    RouterAdvertisementMessage,
    RouterSolicitationMessage,
    TimeExceededMessage,
    ParameterProblemMessage,
    TimestampMessage,
    TimestampReplyMessage,
    InformationRequestMessage,
    InformationReplyMessage,
    AddressMaskRequestMessage,
    AddressMaskReplyMessage,
    Traceroute,
    /// A type byte none of the others stands for.
    Unknown(u8),
}

/// The type that the byte `b` stands for.
pub open spec fn icmp_type_of(b: u8) -> IcmpEchoType {
    if b == 0 {
        IcmpEchoType::EchoReplyMessage
    } else if b == 3 {
        IcmpEchoType::DestinationUnreachableMessage
    } else if b == 4 {
        IcmpEchoType::SourceQuenchMessage
    } else if b == 5 {
        IcmpEchoType::RedirectMessage
    } else if b == 8 {
        IcmpEchoType::EchoMessage
    } else if b == 9 {
        IcmpEchoType::RouterAdvertisementMessage
    } else if b == 10 {
        IcmpEchoType::RouterSolicitationMessage
    } else if b == 11 {
        IcmpEchoType::TimeExceededMessage
    } else if b == 12 {
        IcmpEchoType::ParameterProblemMessage
    } else if b == 13 {
        IcmpEchoType::TimestampMessage
    } else if b == 14 {
        IcmpEchoType::TimestampReplyMessage
    } else if b == 15 {
        IcmpEchoType::InformationRequestMessage
    } else if b == 16 {
        IcmpEchoType::InformationReplyMessage
    } else if b == 17 {
        IcmpEchoType::AddressMaskRequestMessage
    } else if b == 18 {
        IcmpEchoType::AddressMaskReplyMessage
    } else if b == 30 {
        IcmpEchoType::Traceroute
    } else {
        IcmpEchoType::Unknown(b)
    }
}

impl IcmpEchoType {
    pub open spec fn spec_u8(self) -> u8 {
        match self {
            IcmpEchoType::EchoReplyMessage => 0,
            IcmpEchoType::DestinationUnreachableMessage => 3,
            IcmpEchoType::SourceQuenchMessage => 4,
            IcmpEchoType::RedirectMessage => 5,
            IcmpEchoType::EchoMessage => 8,
            IcmpEchoType::RouterAdvertisementMessage => 9,
            IcmpEchoType::RouterSolicitationMessage => 10,
            IcmpEchoType::TimeExceededMessage => 11,
            IcmpEchoType::ParameterProblemMessage => 12,
            IcmpEchoType::TimestampMessage => 13,
            IcmpEchoType::TimestampReplyMessage => 14,
            IcmpEchoType::InformationRequestMessage => 15,
            IcmpEchoType::InformationReplyMessage => 16,
            IcmpEchoType::AddressMaskRequestMessage => 17,
            IcmpEchoType::AddressMaskReplyMessage => 18,
            IcmpEchoType::Traceroute => 30,
            IcmpEchoType::Unknown(b) => b,
        }
    }

    /// `Unknown` holds only bytes that no other variant stands for.
    pub open spec fn well_formed(self) -> bool {
        icmp_type_of(self.spec_u8()) == self
    }

    pub fn get_u8(&self) -> (r: u8)
        ensures
            r == self.spec_u8(),
    {
        match self {
            IcmpEchoType::EchoReplyMessage => 0,
            IcmpEchoType::DestinationUnreachableMessage => 3,
            IcmpEchoType::SourceQuenchMessage => 4,
            IcmpEchoType::RedirectMessage => 5,
            IcmpEchoType::EchoMessage => 8,
            IcmpEchoType::RouterAdvertisementMessage => 9,
            IcmpEchoType::RouterSolicitationMessage => 10,
            IcmpEchoType::TimeExceededMessage => 11,
            IcmpEchoType::ParameterProblemMessage => 12,
            IcmpEchoType::TimestampMessage => 13,
            IcmpEchoType::TimestampReplyMessage => 14,
            IcmpEchoType::InformationRequestMessage => 15,
            IcmpEchoType::InformationReplyMessage => 16,
            IcmpEchoType::AddressMaskRequestMessage => 17,
            IcmpEchoType::AddressMaskReplyMessage => 18,
            IcmpEchoType::Traceroute => 30,
            IcmpEchoType::Unknown(b) => *b,
        }
    }
}

/// The first four bytes of every ICMP message.
#[derive(Clone, Copy, Debug, PartialEq, Eq, Structural)]
pub struct IcmpHeader {
    pub icmp_type: IcmpEchoType,
    pub icmp_code: u8,
    pub checksum: u16,
}

impl IcmpHeader {
    /// The type of the message in `buf`.
    pub fn check_type_from_payload(buf: &[u8]) -> (r: IcmpEchoType)
        requires
            buf@.len() >= 1,
        ensures
            r == icmp_type_of(buf@[0]),
    {
        Self::check_type(buf[0])
    }

    pub fn check_type(b: u8) -> (r: IcmpEchoType)
        ensures
            r == icmp_type_of(b),
    {
        if b == 0 {
            IcmpEchoType::EchoReplyMessage
        } else if b == 3 {
            IcmpEchoType::DestinationUnreachableMessage
        } else if b == 4 {
            IcmpEchoType::SourceQuenchMessage
        } else if b == 5 {
            IcmpEchoType::RedirectMessage
        } else if b == 8 {
            IcmpEchoType::EchoMessage
        } else if b == 9 {
            IcmpEchoType::RouterAdvertisementMessage
        } else if b == 10 {
            IcmpEchoType::RouterSolicitationMessage
        } else if b == 11 {
            IcmpEchoType::TimeExceededMessage
        } else if b == 12 {
            IcmpEchoType::ParameterProblemMessage
        } else if b == 13 {
            IcmpEchoType::TimestampMessage
        } else if b == 14 {
            IcmpEchoType::TimestampReplyMessage
        } else if b == 15 {
            IcmpEchoType::InformationRequestMessage
        } else if b == 16 {
            IcmpEchoType::InformationReplyMessage
        } else if b == 17 {
            IcmpEchoType::AddressMaskRequestMessage
        } else if b == 18 {
            IcmpEchoType::AddressMaskReplyMessage
        } else if b == 30 {
            IcmpEchoType::Traceroute
        } else {
            IcmpEchoType::Unknown(b)
        }
    }

    pub fn parse_from_buf(buf: &[u8]) -> (r: IcmpHeader)
        requires
            buf@.len() >= 4,
        ensures
            r == (IcmpHeader {
                icmp_type: icmp_type_of(buf@[0]),
                icmp_code: buf@[1],
                checksum: be16(buf@[2], buf@[3]),
            }),
    {
        IcmpHeader {
            icmp_type: Self::check_type(buf[0]),
            icmp_code: buf[1],
            checksum: read_u16_be(buf, 2),
        }
    }
}

/// An echo request or reply.
pub struct EchoMessage {
    pub icmp_header: IcmpHeader,
    pub identifier: u16,
    pub sequence_num: u16,
    pub data: Vec<u8>,
}

/// What an `EchoMessage` holds, with its data as a sequence.
pub struct EchoPacket {
    pub icmp_header: IcmpHeader,
    pub identifier: u16,
    pub sequence_num: u16,
    pub data: Seq<u8>,
}

impl View for EchoMessage {
    type V = EchoPacket;

    open spec fn view(&self) -> EchoPacket {
        EchoPacket {
            icmp_header: self.icmp_header,
            identifier: self.identifier,
            sequence_num: self.sequence_num,
            data: self.data@,
        }
    }
}

impl EchoPacket {
    /// The message on the wire.
    pub open spec fn bytes(self) -> Seq<u8> {
        seq![self.icmp_header.icmp_type.spec_u8(), self.icmp_header.icmp_code] + u16_be(
            self.icmp_header.checksum,
        ) + u16_be(self.identifier) + u16_be(self.sequence_num) + self.data
    }

    /// A message that reads back as itself.
    pub open spec fn well_formed(self) -> bool {
        self.icmp_header.icmp_type.well_formed()
    }
}

/// `m` with its checksum set to the checksum of the message as it stands.
pub open spec fn with_echo_checksum(m: EchoPacket) -> EchoPacket {
    EchoPacket { icmp_header: IcmpHeader { checksum: checksum_of(m.bytes()), ..m.icmp_header }, ..m }
}

/// Whether `m` holds the fields read from the bytes `b`.
pub open spec fn echo_read_from(b: Seq<u8>, m: EchoPacket) -> bool {
    &&& b.len() >= ECHO_HEADER_LEN
    &&& m.icmp_header.icmp_type == icmp_type_of(b[0])
    &&& m.icmp_header.icmp_code == b[1]
    &&& m.icmp_header.checksum == be16(b[2], b[3])
    &&& m.identifier == be16(b[4], b[5])
    &&& m.sequence_num == be16(b[6], b[7])
    &&& m.data == b.subrange(8, b.len() as int)
}

/// What parsing the bytes `b` as an echo message gives.
pub open spec fn parse_echo(b: Seq<u8>) -> Option<EchoPacket> {
    if b.len() >= ECHO_HEADER_LEN {
        Some(choose|m: EchoPacket| echo_read_from(b, m))
    } else {
        None
    }
}

/// Parsing is a function of the bytes: two readings of one buffer agree.
pub proof fn lemma_echo_parse_deterministic(b: Seq<u8>, m: EchoPacket, n: EchoPacket)
    requires
        echo_read_from(b, m),
        echo_read_from(b, n),
    ensures
        m == n,
{
}

/// A well-formed message read back from its bytes is the message written.
pub proof fn lemma_echo_round_trip(m: EchoPacket)
    requires
        m.well_formed(),
    ensures
        parse_echo(m.bytes()) == Some(m),
{
    let b = m.bytes();
    lemma_u16_round_trip(m.icmp_header.checksum);
    lemma_u16_round_trip(m.identifier);
    lemma_u16_round_trip(m.sequence_num);
    assert(b[2] == u16_be(m.icmp_header.checksum)[0] && b[3] == u16_be(m.icmp_header.checksum)[1]);
    assert(b[4] == u16_be(m.identifier)[0] && b[5] == u16_be(m.identifier)[1]);
    assert(b[6] == u16_be(m.sequence_num)[0] && b[7] == u16_be(m.sequence_num)[1]);
    assert(b.subrange(8, b.len() as int) =~= m.data);
    assert(echo_read_from(b, m));
    let n = choose|n: EchoPacket| echo_read_from(b, n);
    lemma_echo_parse_deterministic(b, m, n);
}

impl EchoMessage {
    /// An echo request with identifier, sequence number and checksum zero and
    /// no data.
    pub fn new() -> (r: EchoMessage)
        ensures
            r@ == (EchoPacket {
                icmp_header: IcmpHeader {
                    icmp_type: IcmpEchoType::EchoMessage,
                    icmp_code: 0,
                    checksum: 0,
                },
                identifier: 0,
                sequence_num: 0,
                data: Seq::empty(),
            }),
    {
        let r = EchoMessage {
            icmp_header: IcmpHeader { icmp_type: IcmpEchoType::EchoMessage, icmp_code: 0x0, checksum: 0x0 },
            identifier: 0x0,
            sequence_num: 0x0,
            data: Vec::new(),
        };
        assert(r.data@ =~= Seq::<u8>::empty());
        r
    }

    /// The message as bytes for the wire.
    pub fn to_slice(&self) -> (r: Vec<u8>)
        ensures
            r@ == self@.bytes(),
    {
        let mut v: Vec<u8> = Vec::new();
        v.push(self.icmp_header.icmp_type.get_u8());
        v.push(self.icmp_header.icmp_code);
        push_u16_be(&mut v, self.icmp_header.checksum);
        push_u16_be(&mut v, self.identifier);
        push_u16_be(&mut v, self.sequence_num);
        push_bytes(&mut v, self.data.as_slice());
        proof {
            assert(v@ =~= self@.bytes());
        }
        v
    }

    /// Sets the checksum to the checksum of the message as it stands: the
    /// one's-complement word sum of type and code, checksum, identifier,
    /// sequence number and data, folded once and complemented.
    pub fn calc_checksum(&mut self)
        requires
            old(self).data@.len() <= MAX_IP_PAYLOAD_LEN,
        ensures
            final(self)@ == with_echo_checksum(old(self)@),
    {
        let bytes = self.to_slice();
        self.icmp_header.checksum = checksum(bytes.as_slice());
    }

    /// Reads an echo message; `None` for a buffer shorter than its header.
    pub fn parse_from_buf(buf: &[u8]) -> (r: Option<EchoMessage>)
        ensures
            match r {
                Some(m) => parse_echo(buf@) == Some(m@),
                None => parse_echo(buf@) is None,
            },
            r matches Some(m) ==> echo_read_from(buf@, m@),
    {
        if buf.len() < ECHO_HEADER_LEN {
            return None;
        }
        let m = EchoMessage {
            icmp_header: IcmpHeader::parse_from_buf(buf),
            identifier: read_u16_be(buf, 4),
            sequence_num: read_u16_be(buf, 6),
            data: copy_from(buf, ECHO_HEADER_LEN),
        };
        proof {
            let n = choose|n: EchoPacket| echo_read_from(buf@, n);
            lemma_echo_parse_deterministic(buf@, m@, n);
        }
        Some(m)
    }
}

/// The sequence number after `s`, wrapping at 16 bits.
pub open spec fn next_sequence(s: u16) -> u16 {
    ((s + 1) % 0x1_0000) as u16
}

/// What this host answers to the echo message `m`: a reply with the same
/// identifier, sequence number and data to a request; the next request of
/// the sequence to a reply; nothing to any other type.
pub open spec fn echo_answer(m: EchoPacket) -> Option<EchoPacket> {
    match m.icmp_header.icmp_type {
        IcmpEchoType::EchoMessage => Some(
            with_echo_checksum(
                EchoPacket {
                    icmp_header: IcmpHeader {
                        icmp_type: IcmpEchoType::EchoReplyMessage,
                        icmp_code: 0,
                        checksum: 0,
                    },
                    ..m
                },
            ),
        ),
        IcmpEchoType::EchoReplyMessage => Some(
            with_echo_checksum(
                EchoPacket {
                    icmp_header: IcmpHeader {
                        icmp_type: IcmpEchoType::EchoMessage,
                        icmp_code: 0,
                        checksum: 0,
                    },
                    sequence_num: next_sequence(m.sequence_num),
                    ..m
                },
            ),
        ),
        _ => None,
    }
}

/// The frame this host sends back for the frame `received`, if any.
pub open spec fn icmp_reply_frame(stack: NetStack, received: EthernetFrame) -> Option<Seq<u8>> {
    match parse_ip(received.payload) {
        Some(p) => match parse_echo(p.payload) {
            Some(m) => match echo_answer(m) {
                Some(a) => ip_reply_frame(stack, received, a.bytes(), true),
                None => None,
            },
            None => None,
        },
        None => None,
    }
}

/// The echo request that pings `dst_ip_addr`.
pub open spec fn echo_request_frame(stack: NetStack, dst_ip_addr: [u8; 4]) -> Seq<u8> {
    ip_send_frame(
        stack,
        IpProtocol::Icmp,
        dst_ip_addr,
        with_echo_checksum(
            EchoPacket {
                icmp_header: IcmpHeader {
                    icmp_type: IcmpEchoType::EchoMessage,
                    icmp_code: 0,
                    checksum: 0,
                },
                identifier: 0,
                sequence_num: 0,
                data: Seq::empty(),
            },
        ).bytes(),
    )
}

/// The frame of an echo request to `dst_ip_addr`, with identifier and
/// sequence number zero.
pub fn send_icmp(stack: &NetStack, dst_ip_addr: &[u8; 4]) -> (r: Vec<u8>)
    ensures
        r@ == echo_request_frame(*stack, *dst_ip_addr),
{
    let mut icmp = EchoMessage::new();
    icmp.calc_checksum();
    send_ip_packet(stack, IpProtocol::Icmp, dst_ip_addr, icmp.to_slice())
}

/// The answer to an ICMP frame: a reply to an echo request for this host,
/// the next request to an echo reply, else nothing.
pub fn receive_icmp(stack: &NetStack, parsed_ethernet_header: &EthernetHdr) -> (r: Option<Vec<u8>>)
    ensures
        frame_matches(r, icmp_reply_frame(*stack, parsed_ethernet_header@)),
{
    let parsed_ip_header = match IpHdr::parsed_from_buf(parsed_ethernet_header.payload.as_slice()) {
        Some(h) => h,
        None => return None,
    };
    let payload = parsed_ip_header.payload.as_slice();
    if payload.len() < ECHO_HEADER_LEN {
        return None;
    }
    let echo_message = match EchoMessage::parse_from_buf(payload) {
        Some(m) => m,
        None => return None,
    };
    let mut reply_message = match echo_message.icmp_header.icmp_type {
        IcmpEchoType::EchoMessage => EchoMessage {
            icmp_header: IcmpHeader {
                icmp_type: IcmpEchoType::EchoReplyMessage,
                icmp_code: 0x00,
                checksum: 0x00,
            },
            identifier: echo_message.identifier,
            sequence_num: echo_message.sequence_num,
            data: echo_message.data,
        },
        IcmpEchoType::EchoReplyMessage => {
            let sequence_num = if echo_message.sequence_num == 0xffff {
                0
            } else {
                echo_message.sequence_num + 1
            };
            EchoMessage {
                icmp_header: IcmpHeader {
                    icmp_type: IcmpEchoType::EchoMessage,
                    icmp_code: 0x00,
                    checksum: 0x00,
                },
                identifier: echo_message.identifier,
                sequence_num,
                data: echo_message.data,
            }
        },
        _ => return None,
    };
    reply_message.calc_checksum();
    let reply = reply_message.to_slice();
    reply_ip_packet(stack, parsed_ethernet_header, reply)
}

} // verus!
