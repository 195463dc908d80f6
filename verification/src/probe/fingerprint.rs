//! The fingerprint probe: reports TCP packets of flows with fingerprint
//! parameters. It only observes.

use vstd::prelude::*;
use crate::bytes;
use crate::common::event::EVENT_SCAN_FLAG_SET;
use super::ingress;
use super::map::BpfFlowKey;
use super::proto_view;
use super::proto_view::{ETHERTYPE_IPV4, ETH_HDR_LEN, IPPROTO_TCP, MIN_SIGNAL_LEN};
use super::verdict;
use super::verdict::{task_event, FlowFields, TaskContext, Verdict, XDP_PASS};

verus! {

/// The flow of a TCP packet whose ports lie within it; `None` for any other
/// packet.
pub open spec fn tcp_flow(packet: Seq<u8>) -> Option<FlowFields> {
    let start = ETH_HDR_LEN + proto_view::ip_header_len(packet);
    if packet.len() >= MIN_SIGNAL_LEN && proto_view::ether_type(packet) == ETHERTYPE_IPV4
        && packet[23] == IPPROTO_TCP && start + 4 <= packet.len() {
        Some(
            FlowFields {
                src_ip: bytes::be_value(packet.subrange(26, 30)) as u32,
                dst_ip: bytes::be_value(packet.subrange(30, 34)) as u32,
                src_port: bytes::be_value(packet.subrange(start, start + 2)) as u16,
                dst_port: bytes::be_value(packet.subrange(start + 2, start + 4)) as u16,
                protocol: packet[23],
            },
        )
    } else {
        None
    }
}

/// Reads the flow of a TCP packet.
pub fn parse_tcp_flow(packet: &[u8]) -> (flow: Option<FlowFields>)
    ensures
        flow == tcp_flow(packet@),
{
    if packet.len() < MIN_SIGNAL_LEN {
        return None;
    }
    if bytes::read_be_u16(packet, 12) != ETHERTYPE_IPV4 {
        return None;
    }
    let protocol: u8 = packet[23];
    if protocol != IPPROTO_TCP {
        return None;
    }
    let start: usize = ETH_HDR_LEN + (packet[14] % 16) as usize * 4;
    if start + 4 > packet.len() {
        return None;
    }
    Some(
        FlowFields {
            src_ip: bytes::read_be_u32(packet, 26),
            dst_ip: bytes::read_be_u32(packet, 30),
            src_port: bytes::read_be_u16(packet, start),
            dst_port: bytes::read_be_u16(packet, start + 2),
            protocol,
        },
    )
}

/// The verdict on a packet of `flow`: it goes on, and is reported if the flow
/// has fingerprint parameters.
pub open spec fn observes(
    verdict: Verdict,
    flow: FlowFields,
    armed: bool,
    task: TaskContext,
    now_ns: u64,
) -> bool {
    &&& verdict.action == XDP_PASS
    &&& match verdict.event {
        Some(event) => {
            &&& armed
            &&& verdict::reports(event, flow, now_ns, EVENT_SCAN_FLAG_SET)
            &&& verdict::names_task(event, task)
        },
        None => !armed,
    }
}

/// The answer to a packet of `flow`, given whether the flow has fingerprint
/// parameters.
pub fn fingerprint_verdict(flow: FlowFields, armed: bool, task: TaskContext, now_ns: u64) -> (verdict:
    Verdict)
    ensures
        observes(verdict, flow, armed, task, now_ns),
{
    if armed {
        Verdict {
            action: XDP_PASS,
            event: Some(task_event(flow, task, now_ns, EVENT_SCAN_FLAG_SET)),
        }
    } else {
        Verdict::silent_pass()
    }
}

/// The fingerprint probe. Asks the fingerprint map for the packet's flow.
pub fn tcp_fp_probe<F: Fn(BpfFlowKey) -> bool>(
    packet: &[u8],
    task: TaskContext,
    now_ns: u64,
    has_fingerprint: &F,
) -> (verdict: Verdict)
    requires
        forall|key: BpfFlowKey| #[trigger] has_fingerprint.requires((key,)),
    ensures
        match tcp_flow(packet@) {
            None => verdict.is_silent_pass(),
            Some(flow) => exists|armed: bool| #[trigger]
                has_fingerprint.ensures((ingress::key_of(flow),), armed) && observes(
                    verdict,
                    flow,
                    armed,
                    task,
                    now_ns,
                ),
        },
{
    match parse_tcp_flow(packet) {
        Some(flow) => {
            let key = BpfFlowKey::of_flow(
                flow.src_ip,
                flow.dst_ip,
                flow.src_port,
                flow.dst_port,
                flow.protocol,
            );
            let armed = has_fingerprint(key);
            assert(has_fingerprint.ensures((ingress::key_of(flow),), armed));
            fingerprint_verdict(flow, armed, task, now_ns)
        },
        None => Verdict::silent_pass(),
    }
}

} // verus!
