//! The signal probe: a frame for every packet that the filter admits.

use vstd::prelude::*;
use crate::bytes;
use crate::common::signal_frame::SignalFrame;
use super::filter;
use super::filter::{select, FilterResult};
use super::flow_hash;
use super::flow_hash::murmur3_13;
use super::proto_view;
use super::proto_view::{inspect, l4_flags};
use super::verdict::XDP_PASS;

verus! {

/// The signal probe's answer to a packet: what to do with it, and the frame to
/// write into the signal ring, if any.
#[derive(Clone, Copy, Debug)]
pub struct SignalVerdict {
    pub action: u32,
    pub frame: Option<SignalFrame>,
}

/// The hash of the 5-tuple that a reported packet carries.
pub open spec fn packet_hash(packet: Seq<u8>) -> u64 {
    flow_hash::murmur3_32(
        flow_hash::packed_tuple(
            bytes::be_value(packet.subrange(26, 30)) as u32,
            bytes::be_value(packet.subrange(30, 34)) as u32,
            bytes::be_value(packet.subrange(34, 36)) as u16,
            bytes::be_value(packet.subrange(36, 38)) as u16,
            packet[23],
        ),
        0,
    ) as u64
}

/// `frame` is the one that reports `packet` with the filter's `result`.
pub open spec fn frame_reports(
    frame: SignalFrame,
    packet: Seq<u8>,
    result: FilterResult,
    cpu_id: u32,
    now_ns: u64,
) -> bool {
    &&& frame.flow_hash == result.flow_hash
    &&& frame.timestamp_ns == now_ns
    &&& frame.l3_hdr@ == packet.subrange(14, 34)
    &&& frame.l4_flags == proto_view::transport_word(packet)
    &&& frame.pps_delta == result.pps_delta
    &&& frame.cpu_id == cpu_id
    &&& frame._pad@ == Seq::new(16, |i: int| 0u8)
}

/// What the signal probe reports of a packet, given whether its flow is denied
/// and the CPU's counter.
pub open spec fn reported(
    frame: Option<SignalFrame>,
    packet: Seq<u8>,
    denied: bool,
    counter: Option<u64>,
    cpu_id: u32,
    now_ns: u64,
) -> bool {
    match filter::admitted(packet_hash(packet), denied, counter) {
        Some(result) => frame matches Some(f) && frame_reports(f, packet, result, cpu_id, now_ns),
        None => frame is None,
    }
}

/// Whether a frame went into the signal ring, by the ring's answer.
pub fn ring_output(answer: Result<(), i64>) -> (written: bool)
    ensures
        written == (answer is Ok),
{
    answer.is_ok()
}

/// The frame that reports `packet` with the filter's `result`.
pub fn build_frame(packet: &[u8], result: FilterResult, cpu_id: u32, now_ns: u64) -> (frame:
    SignalFrame)
    requires
        proto_view::is_signal(packet@),
    ensures
        frame_reports(frame, packet@, result, cpu_id, now_ns),
{
    let mut frame = SignalFrame::zeroed();
    frame.flow_hash = result.flow_hash;
    frame.timestamp_ns = now_ns;
    frame.l3_hdr = bytes::read_array(packet, 14);
    frame.l4_flags = l4_flags(packet);
    frame.pps_delta = result.pps_delta;
    frame.cpu_id = cpu_id;
    frame
}

/// The signal probe. Reports a packet at most once, and hands every packet
/// on, reported or not.
pub fn xdp_ingress<D: Fn(u32) -> Option<u8>>(
    packet: &[u8],
    cpu_id: u32,
    now_ns: u64,
    deny_map: &D,
    counter: Option<&mut u64>,
) -> (verdict: SignalVerdict)
    requires
        proto_view::is_signal(packet@) ==> deny_map.requires(
            (filter::deny_index(packet_hash(packet@)),),
        ),
    ensures
        verdict.action == XDP_PASS,
        !proto_view::is_signal(packet@) ==> {
            &&& verdict.frame is None
            &&& counter matches Some(c) ==> *final(c) == *c
        },
        proto_view::is_signal(packet@) ==> exists|entry: Option<u8>|
            {
                &&& #[trigger] deny_map.ensures((filter::deny_index(packet_hash(packet@)),), entry)
                &&& reported(
                    verdict.frame,
                    packet@,
                    filter::denies(entry),
                    filter::count_before(counter),
                    cpu_id,
                    now_ns,
                )
                &&& counter matches Some(c) ==> Some(*final(c)) == filter::counted(
                    filter::denies(entry),
                    Some(*c),
                )
            },
{
    let view = match inspect(packet) {
        Some(view) => view,
        None => return SignalVerdict { action: XDP_PASS, frame: None },
    };
    assert(filter::view_hash(view) == packet_hash(packet@));
    match select(&view, deny_map, counter) {
        Some(result) => SignalVerdict {
            action: XDP_PASS,
            frame: Some(build_frame(packet, result, cpu_id, now_ns)),
        },
        None => SignalVerdict { action: XDP_PASS, frame: None },
    }
}

/// The signal probe lets every packet go on. It reports a packet exactly if
/// the packet is IPv4 TCP or UDP of at least 54 bytes, the deny map holds no
/// nonzero entry at the low 16 bits of its hash, and the CPU's counter is there
/// and below a million; and exactly those packets are counted. The hash is that
/// of the 5-tuple that the packet's bytes spell.
pub proof fn packets_are_reported_iff_let_through<D: Fn(u32) -> Option<u8>>(
    packet: &[u8],
    cpu_id: u32,
    now_ns: u64,
    deny_map: &D,
    counter: Option<&mut u64>,
    entries: spec_fn(u32) -> Option<u8>,
    src_ip: u32,
    dst_ip: u32,
    src_port: u16,
    dst_port: u16,
    hash: u32,
    verdict: SignalVerdict,
)
    requires
        forall|index: u32, entry: Option<u8>| #[trigger]
            deny_map.ensures((index,), entry) ==> entry == entries(index),
        packet@.len() >= 54 ==> {
            &&& src_ip == packet@[26] * 0x100_0000 + packet@[27] * 0x1_0000 + packet@[28] * 0x100
                + packet@[29]
            &&& dst_ip == packet@[30] * 0x100_0000 + packet@[31] * 0x1_0000 + packet@[32] * 0x100
                + packet@[33]
            &&& src_port == packet@[34] * 0x100 + packet@[35]
            &&& dst_port == packet@[36] * 0x100 + packet@[37]
            &&& call_ensures(murmur3_13, (src_ip, dst_ip, src_port, dst_port, packet@[23]), hash)
        },
        call_ensures(xdp_ingress::<D>, (packet, cpu_id, now_ns, deny_map, counter), verdict),
    ensures
        ({
            let is_signal = packet@.len() >= 54 && packet@[12] == 8 && packet@[13] == 0 && (
            packet@[23] == 6 || packet@[23] == 17);
            let entry = entries((hash & 0xffff) as u32);
            let denied = entry is Some && entry->0 != 0;
            &&& verdict.action == 2
            &&& verdict.frame is Some <==> is_signal && !denied && (counter matches Some(c) && *c
                < 1_000_000)
            &&& counter matches Some(c) ==> *final(c) == *c + if verdict.frame is Some {
                1int
            } else {
                0int
            }
        }),
        verdict.frame matches Some(f) ==> {
            let start = 14 + 4 * (packet@[14] % 16);
            &&& f.flow_hash == hash
            &&& f.timestamp_ns == now_ns
            &&& f.cpu_id == cpu_id
            &&& counter matches Some(c) && f.pps_delta == *c
            &&& forall|i: int| 0 <= i < 20 ==> f.l3_hdr@[i] == #[trigger] packet@[14 + i]
            &&& forall|i: int| 0 <= i < 16 ==> f._pad@[i] == 0
            &&& f.l4_flags / 0x1_0000 == packet@[23]
            &&& f.l4_flags % 0x1_0000 == if packet@[23] == 6 && start + 14 <= packet@.len() {
                256 * (packet@[start + 12] % 2) + packet@[start + 13]
            } else {
                0
            }
        },
{
    if packet@.len() >= 54 {
        bytes::network_order_2(packet@, 12);
        bytes::network_order_4(packet@, 26);
        bytes::network_order_4(packet@, 30);
        bytes::network_order_2(packet@, 34);
        bytes::network_order_2(packet@, 36);
        filter::deny_entries_are_told_by_the_low_bits(hash as u64, hash as u64);
        assert(hash as u64 & 0xffff == (hash & 0xffff) as u64) by (bit_vector);
        if verdict.frame is Some {
            let f = verdict.frame->0;
            assert forall|i: int| 0 <= i < 20 implies f.l3_hdr@[i] == #[trigger] packet@[14 + i] by {
                assert(packet@.subrange(14, 34)[i] == packet@[14 + i]);
            }
        }
    }
}

/// Two packets of one flow, in whatever else they differ, fall on the same
/// deny entry, and are reported under the same hash.
pub proof fn packets_of_a_flow_share_their_hash(p: Seq<u8>, q: Seq<u8>)
    requires
        p.len() >= 54,
        q.len() >= 54,
        p[23] == q[23],
        forall|i: int| 26 <= i < 38 ==> #[trigger] p[i] == q[i],
    ensures
        packet_hash(p) == packet_hash(q),
        filter::deny_index(packet_hash(p)) == filter::deny_index(packet_hash(q)),
{
    assert(p.subrange(26, 30) =~= q.subrange(26, 30));
    assert(p.subrange(30, 34) =~= q.subrange(30, 34));
    assert(p.subrange(34, 36) =~= q.subrange(34, 36));
    assert(p.subrange(36, 38) =~= q.subrange(36, 38));
}

/// A frame holds the packet's 20 bytes behind the Ethernet header, the
/// protocol above its transport flags, and what it was built with.
pub proof fn frames_hold_what_they_were_built_of(
    packet: &[u8],
    result: FilterResult,
    cpu_id: u32,
    now_ns: u64,
    f: SignalFrame,
    word: u32,
    i: int,
)
    requires
        proto_view::is_signal(packet@),
        call_ensures(build_frame, (packet, result, cpu_id, now_ns), f),
        call_ensures(l4_flags, (packet,), word),
        0 <= i < 20,
    ensures
        f.flow_hash == result.flow_hash,
        f.pps_delta == result.pps_delta,
        f.timestamp_ns == now_ns,
        f.cpu_id == cpu_id,
        f.l4_flags == word,
        f.l3_hdr@[i] == packet@[14 + i],
        i < 16 ==> f._pad@[i] == 0,
{
    assert(packet@.subrange(14, 34)[i] == packet@[14 + i]);
}

/// A frame counts as written exactly if the ring took it.
pub proof fn written_iff_the_ring_took_it(answer: Result<(), i64>, written: bool)
    requires
        call_ensures(ring_output, (answer,), written),
    ensures
        written <==> !(answer is Err),
{
}

} // verus!
