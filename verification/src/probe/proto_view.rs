//! What the signal probe reads out of a packet.

use vstd::prelude::*;
use crate::bytes;

verus! {

/// EtherType of IPv4.
pub const ETHERTYPE_IPV4: u16 = 0x0800;

/// IP protocol number of TCP.
pub const IPPROTO_TCP: u8 = 6;

/// IP protocol number of UDP.
pub const IPPROTO_UDP: u8 = 17;

/// Bytes of an Ethernet header.
pub const ETH_HDR_LEN: usize = 14;

/// Bytes of Ethernet, IPv4 and TCP headers without options.
pub const MIN_SIGNAL_LEN: usize = 54;

/// A packet's 5-tuple and raw IPv4 header.
pub struct ProtoView {
    pub src_ip: u32,
    pub dst_ip: u32,
    pub src_port: u16,
    pub dst_port: u16,
    pub proto: u8,
    pub l3_hdr: [u8; 20],
}

/// The EtherType of a packet.
pub open spec fn ether_type(packet: Seq<u8>) -> nat {
    bytes::be_value(packet.subrange(12, 14))
}

/// The packet is one that the signal probe reports: IPv4 TCP or UDP, and long
/// enough to hold the three headers.
pub open spec fn is_signal(packet: Seq<u8>) -> bool {
    &&& packet.len() >= MIN_SIGNAL_LEN
    &&& ether_type(packet) == ETHERTYPE_IPV4
    &&& packet[23] == IPPROTO_TCP || packet[23] == IPPROTO_UDP
}

impl ProtoView {
    /// The fields are those that `packet` holds at their offsets, behind an
    /// IPv4 header without options.
    pub open spec fn read_from(self, packet: Seq<u8>) -> bool {
        &&& self.src_ip == bytes::be_value(packet.subrange(26, 30))
        &&& self.dst_ip == bytes::be_value(packet.subrange(30, 34))
        &&& self.src_port == bytes::be_value(packet.subrange(34, 36))
        &&& self.dst_port == bytes::be_value(packet.subrange(36, 38))
        &&& self.proto == packet[23]
        &&& self.l3_hdr@ == packet.subrange(14, 34)
    }
}

/// The view of a packet that the signal probe reports; `None` for any other
/// packet.
pub fn inspect(packet: &[u8]) -> (view: Option<ProtoView>)
    ensures
        match view {
            Some(v) => is_signal(packet@) && v.read_from(packet@),
            None => !is_signal(packet@),
        },
{
    if packet.len() < 34 {
        return None;
    }
    if bytes::read_be_u16(packet, 12) != ETHERTYPE_IPV4 {
        return None;
    }
    let proto: u8 = packet[23];
    if proto != IPPROTO_TCP && proto != IPPROTO_UDP {
        return None;
    }
    if packet.len() < MIN_SIGNAL_LEN {
        return None;
    }
    Some(
        ProtoView {
            src_ip: bytes::read_be_u32(packet, 26),
            dst_ip: bytes::read_be_u32(packet, 30),
            src_port: bytes::read_be_u16(packet, 34),
            dst_port: bytes::read_be_u16(packet, 36),
            proto,
            l3_hdr: bytes::read_array(packet, 14),
        },
    )
}

/// The length that an IPv4 header's first byte gives, in bytes.
pub open spec fn ip_header_len(packet: Seq<u8>) -> nat {
    4 * (packet[14] % 16) as nat
}

/// The nine TCP flags of a TCP packet, behind an IPv4 header of the length
/// that it announces; zero if they do not lie within the packet.
pub open spec fn tcp_flags(packet: Seq<u8>) -> nat {
    let start = ETH_HDR_LEN + ip_header_len(packet);
    if start + 14 <= packet.len() {
        (packet[start + 12] % 2) as nat * 256 + packet[start + 13] as nat
    } else {
        0
    }
}

/// A packet's transport word: the nine TCP flags in the low bits (zero for
/// UDP) and the protocol in bits 16 to 23.
pub open spec fn transport_word(packet: Seq<u8>) -> nat {
    let flags: nat = if packet[23] == IPPROTO_TCP {
        tcp_flags(packet)
    } else {
        0
    };
    flags + 0x1_0000 * packet[23] as nat
}

/// The transport word of a packet that the signal probe reports.
pub fn l4_flags(packet: &[u8]) -> (word: u32)
    requires
        is_signal(packet@),
    ensures
        word == transport_word(packet@),
{
    let proto: u8 = packet[23];
    let start: usize = ETH_HDR_LEN + (packet[14] % 16) as usize * 4;
    let flags: u32 = if proto == IPPROTO_TCP && start + 14 <= packet.len() {
        (packet[start + 12] % 2) as u32 * 256 + packet[start + 13] as u32
    } else {
        0
    };
    flags + 0x1_0000 * (proto as u32)
}

/// A packet is viewed exactly if it is IPv4, TCP or UDP and at least 54 bytes
/// long. The view holds the numbers that the bytes make at their places, and
/// the 20 bytes behind the Ethernet header.
pub proof fn view_is_what_the_bytes_spell(packet: &[u8], found: Option<ProtoView>)
    requires
        call_ensures(inspect, (packet,), found),
    ensures
        found is Some <==> packet@.len() >= 54 && packet@[12] == 8 && packet@[13] == 0 && (
        packet@[23] == 6 || packet@[23] == 17),
        found matches Some(v) ==> {
            &&& v.src_ip == packet@[26] * 0x100_0000 + packet@[27] * 0x1_0000 + packet@[28] * 0x100
                + packet@[29]
            &&& v.dst_ip == packet@[30] * 0x100_0000 + packet@[31] * 0x1_0000 + packet@[32] * 0x100
                + packet@[33]
            &&& v.src_port == packet@[34] * 0x100 + packet@[35]
            &&& v.dst_port == packet@[36] * 0x100 + packet@[37]
            &&& v.proto == packet@[23]
            &&& forall|i: int| 0 <= i < 20 ==> v.l3_hdr@[i] == #[trigger] packet@[14 + i]
        },
{
    if packet@.len() >= 54 {
        bytes::network_order_2(packet@, 12);
        bytes::network_order_4(packet@, 26);
        bytes::network_order_4(packet@, 30);
        bytes::network_order_2(packet@, 34);
        bytes::network_order_2(packet@, 36);
        if found is Some {
            let v = found->0;
            assert forall|i: int| 0 <= i < 20 implies v.l3_hdr@[i] == #[trigger] packet@[14 + i] by {
                assert(packet@.subrange(14, 34)[i] == packet@[14 + i]);
            }
        }
    }
}

/// Two packets that the probe views agree on a field of the 5-tuple exactly if
/// they agree on the bytes that hold it.
pub proof fn views_agree_iff_the_tuple_bytes_do(p: &[u8], q: &[u8], of_p: ProtoView, of_q: ProtoView)
    requires
        call_ensures(inspect, (p,), Some(of_p)),
        call_ensures(inspect, (q,), Some(of_q)),
    ensures
        of_p.src_ip == of_q.src_ip <==> p@[26] == q@[26] && p@[27] == q@[27] && p@[28] == q@[28]
            && p@[29] == q@[29],
        of_p.dst_ip == of_q.dst_ip <==> p@[30] == q@[30] && p@[31] == q@[31] && p@[32] == q@[32]
            && p@[33] == q@[33],
        of_p.src_port == of_q.src_port <==> p@[34] == q@[34] && p@[35] == q@[35],
        of_p.dst_port == of_q.dst_port <==> p@[36] == q@[36] && p@[37] == q@[37],
        of_p.proto == of_q.proto <==> p@[23] == q@[23],
{
    view_is_what_the_bytes_spell(p, Some(of_p));
    view_is_what_the_bytes_spell(q, Some(of_q));
}

/// The transport word's upper half is the protocol. Its lower half is zero for
/// UDP; for TCP it is the nine flag bits, the lowest bit of the byte 12 bytes
/// into the transport header and the whole byte behind it, or zero if these
/// lie outside the packet.
pub proof fn transport_word_is_what_the_bytes_spell(packet: &[u8], word: u32)
    requires
        is_signal(packet@),
        call_ensures(l4_flags, (packet,), word),
    ensures
        word / 0x1_0000 == packet@[23],
        word % 0x1_0000 < 512,
        ({
            let start = 14 + 4 * (packet@[14] % 16);
            if packet@[23] == 6 && start + 14 <= packet@.len() {
                word % 0x1_0000 == 256 * (packet@[start + 12] % 2) + packet@[start + 13]
            } else {
                word % 0x1_0000 == 0
            }
        }),
{
}

} // verus!
