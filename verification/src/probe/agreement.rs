//! What the probes make of a packet, told from the packet's bytes.

use vstd::prelude::*;
use crate::bytes;
use crate::common::packet::FlowKey;
use super::fingerprint;
use super::fingerprint::tcp_fp_probe;
use super::ingress;
use super::ingress::{packet_ingress, parse_ip, parse_transport};
use super::map::BpfFlowKey;
use super::verdict::{FlowFields, TaskContext, Verdict};

verus! {

/// Two bytes of a packet as a number, the first the more significant.
pub open spec fn pair(packet: Seq<u8>, at: int) -> int {
    packet[at] * 256 + packet[at + 1]
}

/// Four bytes of a packet as a number, the first the most significant.
pub open spec fn quad(packet: Seq<u8>, at: int) -> int {
    packet[at] * 0x100_0000 + packet[at + 1] * 0x1_0000 + packet[at + 2] * 0x100 + packet[at + 3]
}

/// Where the transport header starts: behind 14 bytes of Ethernet header and
/// four times the low half of byte 14.
pub open spec fn transport_start(packet: Seq<u8>) -> int {
    14 + 4 * (packet[14] % 16)
}

/// The packet is IPv4 and holds the whole header that it announces.
pub open spec fn has_ip_header(packet: Seq<u8>) -> bool {
    &&& packet.len() >= 34
    &&& packet[12] == 8
    &&& packet[13] == 0
    &&& packet[14] % 16 >= 5
    &&& transport_start(packet) <= packet.len()
}

/// The packet holds as much of a transport header as its protocol needs: 20
/// bytes for TCP, 8 for UDP, none for any other.
pub open spec fn has_transport(packet: Seq<u8>) -> bool {
    &&& packet[23] == 6 ==> transport_start(packet) + 20 <= packet.len()
    &&& packet[23] == 17 ==> transport_start(packet) + 8 <= packet.len()
}

/// The packet belongs to the flow `k`: it holds the five values at their
/// places. A protocol other than TCP and UDP has no ports.
pub open spec fn carries(packet: Seq<u8>, k: FlowKey) -> bool {
    &&& has_ip_header(packet)
    &&& has_transport(packet)
    &&& k.src_ip == quad(packet, 26)
    &&& k.dst_ip == quad(packet, 30)
    &&& k.protocol == packet[23]
    &&& k.protocol == 6 || k.protocol == 17 ==> {
        &&& k.src_port == pair(packet, transport_start(packet))
        &&& k.dst_port == pair(packet, transport_start(packet) + 2)
    }
    &&& k.protocol != 6 && k.protocol != 17 ==> k.src_port == 0 && k.dst_port == 0
}

/// The key holds the five values of the flow `k`, and zeros behind them.
pub open spec fn is_key_of(key: BpfFlowKey, k: FlowKey) -> bool {
    &&& key.src_ip == k.src_ip
    &&& key.dst_ip == k.dst_ip
    &&& key.src_port == k.src_port
    &&& key.dst_port == k.dst_port
    &&& key.protocol == k.protocol
    &&& key._pad == [0u8, 0u8, 0u8]
}

/// Four bytes and the number that they make determine each other.
pub proof fn quads_tell_bytes_apart(p: Seq<u8>, q: Seq<u8>, at: int)
    ensures
        quad(p, at) == quad(q, at) <==> p[at] == q[at] && p[at + 1] == q[at + 1] && p[at + 2]
            == q[at + 2] && p[at + 3] == q[at + 3],
        0 <= quad(p, at) <= u32::MAX,
{
}

/// The packet probe finds an IPv4 header exactly where the bytes show one, and
/// reads the addresses, the protocol and the length that they spell.
pub proof fn ip_header_is_what_the_bytes_spell(packet: &[u8], found: Option<ingress::IpHeader>)
    requires
        call_ensures(parse_ip, (packet,), found),
    ensures
        found is Some <==> has_ip_header(packet@),
        found matches Some(ip) ==> {
            &&& ip.src_ip == quad(packet@, 26)
            &&& ip.dst_ip == quad(packet@, 30)
            &&& ip.protocol == packet@[23]
            &&& 14 + ip.header_len == transport_start(packet@)
        },
{
    if packet@.len() >= 34 {
        bytes::network_order_2(packet@, 12);
        bytes::network_order_4(packet@, 26);
        bytes::network_order_4(packet@, 30);
    }
}

/// Two packets have the same source exactly if they agree on the bytes 26 to
/// 29, and the same destination exactly if they agree on the bytes 30 to 33.
pub proof fn addresses_agree_iff_their_bytes_do(
    p: &[u8],
    q: &[u8],
    of_p: Option<ingress::IpHeader>,
    of_q: Option<ingress::IpHeader>,
)
    requires
        has_ip_header(p@),
        has_ip_header(q@),
        call_ensures(parse_ip, (p,), of_p),
        call_ensures(parse_ip, (q,), of_q),
    ensures
        of_p is Some,
        of_q is Some,
        of_p->0.src_ip == of_q->0.src_ip <==> p@[26] == q@[26] && p@[27] == q@[27] && p@[28]
            == q@[28] && p@[29] == q@[29],
        of_p->0.dst_ip == of_q->0.dst_ip <==> p@[30] == q@[30] && p@[31] == q@[31] && p@[32]
            == q@[32] && p@[33] == q@[33],
{
    ip_header_is_what_the_bytes_spell(p, of_p);
    ip_header_is_what_the_bytes_spell(q, of_q);
    quads_tell_bytes_apart(p@, q@, 26);
    quads_tell_bytes_apart(p@, q@, 30);
}

/// A transport header's fields are the bytes at their places: two ports and,
/// for TCP, the flags 13 bytes on. A header that does not fit is no header.
pub proof fn transport_is_what_the_bytes_spell(
    packet: &[u8],
    start: usize,
    protocol: u8,
    found: Result<(u16, u16, u8), ()>,
)
    requires
        call_ensures(parse_transport, (packet, start, protocol), found),
    ensures
        protocol == 6 ==> (found is Ok <==> start + 20 <= packet@.len()),
        protocol == 17 ==> (found is Ok <==> start + 8 <= packet@.len()),
        protocol != 6 && protocol != 17 ==> found == Ok::<(u16, u16, u8), ()>((0, 0, 0)),
        (protocol == 6 || protocol == 17) && found is Ok ==> {
            let (src_port, dst_port, flags) = found->Ok_0;
            &&& src_port == pair(packet@, start as int)
            &&& dst_port == pair(packet@, start + 2)
            &&& flags == if protocol == 6 {
                packet@[start + 13]
            } else {
                0
            }
        },
{
    if start + 8 <= packet@.len() {
        bytes::network_order_2(packet@, start as int);
        bytes::network_order_2(packet@, start + 2);
    }
}

/// The packet probe drops a packet whose source the deny map names, whatever
/// else it holds. The source is the number that the bytes 26 to 29 make. The
/// report has the addresses and the protocol, and no ports.
pub proof fn denied_source_is_dropped<D: Fn(u32) -> bool, S: Fn(BpfFlowKey) -> bool>(
    packet: &[u8],
    now_ns: u64,
    is_denied: &D,
    is_flagged: &S,
    source: u32,
    verdict: Verdict,
)
    requires
        has_ip_header(packet@),
        source == quad(packet@, 26),
        forall|answer: bool| is_denied.ensures((source,), answer) ==> answer,
        call_ensures(packet_ingress::<D, S>, (packet, now_ns, is_denied, is_flagged), verdict),
    ensures
        verdict.action == 1,
        verdict.event matches Some(e) && {
            &&& e.src_ip == quad(packet@, 26)
            &&& e.dst_ip == quad(packet@, 30)
            &&& e.src_port == 0
            &&& e.dst_port == 0
            &&& e.protocol == packet@[23]
            &&& e.event_type == 0
            &&& e.timestamp_ns == now_ns
            &&& e.pid == 0
            &&& e.uid == 0
            &&& forall|i: int| 0 <= i < 2 ==> e._pad@[i] == 0
            &&& forall|i: int| 0 <= i < 16 ==> e.comm@[i] == 0
        },
{
    bytes::network_order_2(packet@, 12);
    bytes::network_order_4(packet@, 26);
    bytes::network_order_4(packet@, 30);
}

/// A packet of the flow `k` whose source is not denied goes on and is reported
/// with the five values of `k`: as a scan if the scan-flag map answers so for
/// the key of `k`, as an ordinary packet if not.
pub proof fn packet_probe_reports_the_flow<D: Fn(u32) -> bool, S: Fn(BpfFlowKey) -> bool>(
    packet: &[u8],
    now_ns: u64,
    is_denied: &D,
    is_flagged: &S,
    k: FlowKey,
    key: BpfFlowKey,
    flagged: bool,
    verdict: Verdict,
)
    requires
        carries(packet@, k),
        is_key_of(key, k),
        forall|answer: bool| is_denied.ensures((k.src_ip,), answer) ==> !answer,
        forall|answer: bool| is_flagged.ensures((key,), answer) ==> answer == flagged,
        call_ensures(packet_ingress::<D, S>, (packet, now_ns, is_denied, is_flagged), verdict),
    ensures
        verdict.action == 2,
        verdict.event matches Some(e) && {
            &&& e.src_ip == k.src_ip
            &&& e.dst_ip == k.dst_ip
            &&& e.src_port == k.src_port
            &&& e.dst_port == k.dst_port
            &&& e.protocol == k.protocol
            &&& e.event_type == if flagged {
                6u8
            } else {
                0u8
            }
            &&& e.timestamp_ns == now_ns
            &&& e.pid == 0
            &&& e.uid == 0
            &&& forall|i: int| 0 <= i < 2 ==> e._pad@[i] == 0
            &&& forall|i: int| 0 <= i < 16 ==> e.comm@[i] == 0
        },
{
    bytes::network_order_2(packet@, 12);
    bytes::network_order_4(packet@, 26);
    bytes::network_order_4(packet@, 30);
    if k.protocol == 6 || k.protocol == 17 {
        bytes::network_order_2(packet@, transport_start(packet@));
        bytes::network_order_2(packet@, transport_start(packet@) + 2);
    }
}

/// A packet without a whole IPv4 header goes on unreported, and so does one
/// without a whole transport header whose source is not denied.
pub proof fn incomplete_packets_pass_unreported<D: Fn(u32) -> bool, S: Fn(BpfFlowKey) -> bool>(
    packet: &[u8],
    now_ns: u64,
    is_denied: &D,
    is_flagged: &S,
    source: u32,
    verdict: Verdict,
)
    requires
        has_ip_header(packet@) ==> {
            &&& !has_transport(packet@)
            &&& source == quad(packet@, 26)
            &&& forall|answer: bool| is_denied.ensures((source,), answer) ==> !answer
        },
        call_ensures(packet_ingress::<D, S>, (packet, now_ns, is_denied, is_flagged), verdict),
    ensures
        verdict.action == 2,
        verdict.event is None,
{
    if packet@.len() >= 34 {
        bytes::network_order_2(packet@, 12);
        bytes::network_order_4(packet@, 26);
    }
}

/// The fingerprint probe sees a flow exactly in an IPv4 TCP packet of at least
/// 54 bytes whose ports lie within it, and reads the source from the bytes 26
/// to 29, the destination from the bytes 30 to 33 and the ports behind the
/// IPv4 header.
pub proof fn tcp_flow_is_what_the_bytes_spell(packet: &[u8], found: Option<FlowFields>)
    requires
        call_ensures(fingerprint::parse_tcp_flow, (packet,), found),
    ensures
        found is Some <==> packet@.len() >= 54 && packet@[12] == 8 && packet@[13] == 0
            && packet@[23] == 6 && transport_start(packet@) + 4 <= packet@.len(),
        found matches Some(flow) ==> {
            &&& flow.src_ip == quad(packet@, 26)
            &&& flow.dst_ip == quad(packet@, 30)
            &&& flow.src_port == pair(packet@, transport_start(packet@))
            &&& flow.dst_port == pair(packet@, transport_start(packet@) + 2)
            &&& flow.protocol == 6
        },
{
    if packet@.len() >= 54 {
        bytes::network_order_2(packet@, 12);
        bytes::network_order_4(packet@, 26);
        bytes::network_order_4(packet@, 30);
        if transport_start(packet@) + 4 <= packet@.len() {
            bytes::network_order_2(packet@, transport_start(packet@));
            bytes::network_order_2(packet@, transport_start(packet@) + 2);
        }
    }
}

/// The two probes agree on a TCP packet's flow: the key that the fingerprint
/// probe asks the fingerprint map for is the one that the packet probe asks
/// the scan-flag map for, and it is the key of the flow that the packet
/// belongs to.
pub proof fn probes_ask_for_the_same_key(packet: Seq<u8>, k: FlowKey, key: BpfFlowKey)
    requires
        carries(packet, k),
        k.protocol == 6,
        is_key_of(key, k),
    ensures
        ({
            let ip = ingress::ip_header(packet)->0;
            let (src_port, dst_port, _) = ingress::transport_of(packet, ip)->Ok_0;
            let flow = fingerprint::tcp_flow(packet)->0;
            &&& ingress::ip_header(packet) is Some
            &&& ingress::transport_of(packet, ip) is Ok
            &&& fingerprint::tcp_flow(packet) is Some
            &&& ingress::key_of(ingress::flow_of(ip, src_port, dst_port)) == key
            &&& ingress::key_of(flow) == key
            &&& flow == ingress::flow_of(ip, src_port, dst_port)
        }),
{
    bytes::network_order_2(packet, 12);
    bytes::network_order_4(packet, 26);
    bytes::network_order_4(packet, 30);
    bytes::network_order_2(packet, transport_start(packet));
    bytes::network_order_2(packet, transport_start(packet) + 2);
}

/// The fingerprint probe lets every packet go on. It reports a TCP packet of
/// the flow `k` exactly if the fingerprint map answers so for the key of `k`,
/// with the five values of `k` and the task that is running.
pub proof fn fingerprint_probe_reports_the_flow<F: Fn(BpfFlowKey) -> bool>(
    packet: &[u8],
    task: TaskContext,
    now_ns: u64,
    has_fingerprint: &F,
    k: FlowKey,
    key: BpfFlowKey,
    armed: bool,
    verdict: Verdict,
)
    requires
        carries(packet@, k),
        k.protocol == 6,
        is_key_of(key, k),
        forall|answer: bool| has_fingerprint.ensures((key,), answer) ==> answer == armed,
        call_ensures(tcp_fp_probe::<F>, (packet, task, now_ns, has_fingerprint), verdict),
    ensures
        verdict.action == 2,
        verdict.event is Some <==> armed,
        verdict.event matches Some(e) ==> {
            &&& e.src_ip == k.src_ip
            &&& e.dst_ip == k.dst_ip
            &&& e.src_port == k.src_port
            &&& e.dst_port == k.dst_port
            &&& e.protocol == 6
            &&& e.event_type == 6
            &&& e.timestamp_ns == now_ns
            &&& e.pid == task.pid_tgid & 0xffff_ffff
            &&& e.uid == task.uid_gid & 0xffff_ffff
            &&& task.comm is Some ==> e.comm == task.comm->0
            &&& task.comm is None ==> forall|i: int| 0 <= i < 16 ==> e.comm@[i] == 0
            &&& forall|i: int| 0 <= i < 2 ==> e._pad@[i] == 0
        },
{
    probes_ask_for_the_same_key(packet@, k, key);
    bytes::network_order_4(packet@, 26);
    bytes::network_order_4(packet@, 30);
    bytes::network_order_2(packet@, transport_start(packet@));
    bytes::network_order_2(packet@, transport_start(packet@) + 2);
    low_half(task.pid_tgid);
    low_half(task.uid_gid);
}

/// The fingerprint probe lets every packet go on, and reports none that is not
/// IPv4 TCP, that is shorter than 54 bytes, or that ends before its ports do.
pub proof fn fingerprint_probe_skips_other_packets<F: Fn(BpfFlowKey) -> bool>(
    packet: &[u8],
    task: TaskContext,
    now_ns: u64,
    has_fingerprint: &F,
    verdict: Verdict,
)
    requires
        call_ensures(tcp_fp_probe::<F>, (packet, task, now_ns, has_fingerprint), verdict),
    ensures
        verdict.action == 2,
        verdict.event is Some ==> {
            &&& packet@.len() >= 54
            &&& packet@[12] == 8
            &&& packet@[13] == 0
            &&& packet@[23] == 6
            &&& transport_start(packet@) + 4 <= packet@.len()
        },
{
    if packet@.len() >= 54 {
        bytes::network_order_2(packet@, 12);
    }
}

/// The low half of a 64-bit word.
pub proof fn low_half(word: u64)
    ensures
        word % 0x1_0000_0000 == word & 0xffff_ffff,
{
    assert(word % 0x1_0000_0000 == word & 0xffff_ffff) by (bit_vector);
}

} // verus!
