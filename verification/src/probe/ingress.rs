//! The packet probe: drops what the deny list names and reports the rest.

use vstd::prelude::*;
use crate::bytes;
use crate::common::event::{EVENT_PACKET_INGRESS, EVENT_SCAN_FLAG_SET};
use super::map::BpfFlowKey;
use super::proto_view;
use super::proto_view::{ETHERTYPE_IPV4, ETH_HDR_LEN, IPPROTO_TCP, IPPROTO_UDP};
use super::verdict;
use super::verdict::{flow_event, FlowFields, Verdict, XDP_DROP, XDP_PASS};

verus! {

/// Bytes of an IPv4 header without options.
pub const MIN_IP_HDR_LEN: usize = 20;

/// Bytes of a TCP header without options.
pub const MIN_TCP_HDR_LEN: usize = 20;

/// Bytes of a UDP header.
pub const UDP_HDR_LEN: usize = 8;

/// What the packet probe reads out of an IPv4 header.
#[derive(Clone, Copy, Debug)]
pub struct IpHeader {
    /// Length in bytes, options included.
    pub header_len: usize,
    pub protocol: u8,
    pub src_ip: u32,
    pub dst_ip: u32,
}

/// The IPv4 header of a packet; `None` if the packet is not IPv4, or too short
/// for the header that it announces.
pub open spec fn ip_header(packet: Seq<u8>) -> Option<IpHeader> {
    if packet.len() >= ETH_HDR_LEN + MIN_IP_HDR_LEN && proto_view::ether_type(packet)
        == ETHERTYPE_IPV4 && proto_view::ip_header_len(packet) >= MIN_IP_HDR_LEN && ETH_HDR_LEN
        + proto_view::ip_header_len(packet) <= packet.len() {
        Some(
            IpHeader {
                header_len: proto_view::ip_header_len(packet) as usize,
                protocol: packet[23],
                src_ip: bytes::be_value(packet.subrange(26, 30)) as u32,
                dst_ip: bytes::be_value(packet.subrange(30, 34)) as u32,
            },
        )
    } else {
        None
    }
}

/// Source port, destination port and TCP flags of the transport header at
/// `start`: zeros for a protocol without ports, `Err` for a truncated header.
pub open spec fn transport(packet: Seq<u8>, start: int, protocol: u8) -> Result<
    (u16, u16, u8),
    (),
> {
    let src_port = bytes::be_value(packet.subrange(start, start + 2)) as u16;
    let dst_port = bytes::be_value(packet.subrange(start + 2, start + 4)) as u16;
    if protocol == IPPROTO_TCP {
        if start + MIN_TCP_HDR_LEN <= packet.len() {
            Ok((src_port, dst_port, packet[start + 13]))
        } else {
            Err(())
        }
    } else if protocol == IPPROTO_UDP {
        if start + UDP_HDR_LEN <= packet.len() {
            Ok((src_port, dst_port, 0))
        } else {
            Err(())
        }
    } else {
        Ok((0, 0, 0))
    }
}

/// The transport header of a packet with IPv4 header `ip`.
pub open spec fn transport_of(packet: Seq<u8>, ip: IpHeader) -> Result<(u16, u16, u8), ()> {
    transport(packet, ETH_HDR_LEN + ip.header_len, ip.protocol)
}

/// The flow of a packet with IPv4 header `ip` and the given ports.
pub open spec fn flow_of(ip: IpHeader, src_port: u16, dst_port: u16) -> FlowFields {
    FlowFields {
        src_ip: ip.src_ip,
        dst_ip: ip.dst_ip,
        src_port,
        dst_port,
        protocol: ip.protocol,
    }
}

/// The scan-flag map's key for a flow.
pub open spec fn key_of(flow: FlowFields) -> BpfFlowKey {
    BpfFlowKey::of(flow.src_ip, flow.dst_ip, flow.src_port, flow.dst_port, flow.protocol)
}

/// The verdict reports `flow` with the given action and event type.
pub open spec fn reports_flow(
    verdict: Verdict,
    action: u32,
    flow: FlowFields,
    now_ns: u64,
    event_type: u8,
) -> bool {
    &&& verdict.action == action
    &&& verdict.event matches Some(event) && {
        &&& verdict::reports(event, flow, now_ns, event_type)
        &&& verdict::names_no_process(event)
    }
}

/// The packet probe's answer to a packet, given whether its source is denied
/// and whether its flow is flagged as scanning.
pub open spec fn answers(
    verdict: Verdict,
    packet: Seq<u8>,
    now_ns: u64,
    denied: bool,
    flagged: bool,
) -> bool {
    match ip_header(packet) {
        None => verdict.is_silent_pass(),
        Some(ip) => if denied {
            reports_flow(verdict, XDP_DROP, flow_of(ip, 0, 0), now_ns, EVENT_PACKET_INGRESS)
        } else {
            match transport_of(packet, ip) {
                Err(_) => verdict.is_silent_pass(),
                Ok((src_port, dst_port, _)) => reports_flow(
                    verdict,
                    XDP_PASS,
                    flow_of(ip, src_port, dst_port),
                    now_ns,
                    if flagged {
                        EVENT_SCAN_FLAG_SET
                    } else {
                        EVENT_PACKET_INGRESS
                    },
                ),
            }
        },
    }
}

/// Reads a packet's IPv4 header.
pub fn parse_ip(packet: &[u8]) -> (ip: Option<IpHeader>)
    ensures
        ip == ip_header(packet@),
{
    if packet.len() < ETH_HDR_LEN {
        return None;
    }
    if bytes::read_be_u16(packet, 12) != ETHERTYPE_IPV4 {
        return None;
    }
    if packet.len() < ETH_HDR_LEN + MIN_IP_HDR_LEN {
        return None;
    }
    let header_len: usize = (packet[14] % 16) as usize * 4;
    if header_len < MIN_IP_HDR_LEN || ETH_HDR_LEN + header_len > packet.len() {
        return None;
    }
    Some(
        IpHeader {
            header_len,
            protocol: packet[23],
            src_ip: bytes::read_be_u32(packet, 26),
            dst_ip: bytes::read_be_u32(packet, 30),
        },
    )
}

/// Reads the transport header at `start`: source port, destination port and
/// TCP flags.
pub fn parse_transport(packet: &[u8], start: usize, protocol: u8) -> (fields: Result<
    (u16, u16, u8),
    (),
>)
    ensures
        fields == transport(packet@, start as int, protocol),
{
    let len: usize = packet.len();
    if protocol == IPPROTO_TCP {
        if start > len || len - start < MIN_TCP_HDR_LEN {
            return Err(());
        }
        let src_port: u16 = bytes::read_be_u16(packet, start);
        let dst_port: u16 = bytes::read_be_u16(packet, start + 2);
        Ok((src_port, dst_port, packet[start + 13]))
    } else if protocol == IPPROTO_UDP {
        if start > len || len - start < UDP_HDR_LEN {
            return Err(());
        }
        let src_port: u16 = bytes::read_be_u16(packet, start);
        let dst_port: u16 = bytes::read_be_u16(packet, start + 2);
        Ok((src_port, dst_port, 0))
    } else {
        Ok((0, 0, 0))
    }
}

/// The answer to a packet from a denied source: it is dropped, and reported
/// without ports.
pub fn denied_verdict(ip: IpHeader, now_ns: u64) -> (verdict: Verdict)
    ensures
        reports_flow(verdict, XDP_DROP, flow_of(ip, 0, 0), now_ns, EVENT_PACKET_INGRESS),
{
    let flow = FlowFields {
        src_ip: ip.src_ip,
        dst_ip: ip.dst_ip,
        src_port: 0,
        dst_port: 0,
        protocol: ip.protocol,
    };
    Verdict { action: XDP_DROP, event: Some(flow_event(flow, now_ns, EVENT_PACKET_INGRESS)) }
}

/// The answer to a packet that goes on: it is reported as its flow's flag says.
pub fn observed_verdict(flow: FlowFields, now_ns: u64, flagged: bool) -> (verdict: Verdict)
    ensures
        reports_flow(
            verdict,
            XDP_PASS,
            flow,
            now_ns,
            if flagged {
                EVENT_SCAN_FLAG_SET
            } else {
                EVENT_PACKET_INGRESS
            },
        ),
{
    let event_type: u8 = if flagged {
        EVENT_SCAN_FLAG_SET
    } else {
        EVENT_PACKET_INGRESS
    };
    Verdict { action: XDP_PASS, event: Some(flow_event(flow, now_ns, event_type)) }
}

/// The packet probe. Asks the deny map for the packet's source, and for a
/// packet that goes on the scan-flag map for its flow.
pub fn packet_ingress<D: Fn(u32) -> bool, S: Fn(BpfFlowKey) -> bool>(
    packet: &[u8],
    now_ns: u64,
    is_denied: &D,
    is_flagged: &S,
) -> (verdict: Verdict)
    requires
        forall|src_ip: u32| #[trigger] is_denied.requires((src_ip,)),
        forall|key: BpfFlowKey| #[trigger] is_flagged.requires((key,)),
    ensures
        match ip_header(packet@) {
            None => answers(verdict, packet@, now_ns, false, false),
            Some(ip) => exists|denied: bool| #[trigger]
                is_denied.ensures((ip.src_ip,), denied) && (match transport_of(packet@, ip) {
                    Ok((src_port, dst_port, _)) if !denied => exists|flagged: bool| #[trigger]
                        is_flagged.ensures((key_of(flow_of(ip, src_port, dst_port)),), flagged)
                            && answers(verdict, packet@, now_ns, denied, flagged),
                    _ => answers(verdict, packet@, now_ns, denied, false),
                }),
        },
{
    let ip = match parse_ip(packet) {
        Some(ip) => ip,
        None => return Verdict::silent_pass(),
    };
    let denied = is_denied(ip.src_ip);
    assert(is_denied.ensures((ip.src_ip,), denied));
    if denied {
        return denied_verdict(ip, now_ns);
    }
    match parse_transport(packet, ETH_HDR_LEN + ip.header_len, ip.protocol) {
        Ok((src_port, dst_port, _)) => {
            let flow = FlowFields {
                src_ip: ip.src_ip,
                dst_ip: ip.dst_ip,
                src_port,
                dst_port,
                protocol: ip.protocol,
            };
            let key = BpfFlowKey::of_flow(flow.src_ip, flow.dst_ip, src_port, dst_port, flow.protocol);
            let flagged = is_flagged(key);
            assert(is_flagged.ensures((key_of(flow_of(ip, src_port, dst_port)),), flagged));
            observed_verdict(flow, now_ns, flagged)
        },
        Err(_) => Verdict::silent_pass(),
    }
}

/// A packet is dropped exactly if it carries an IPv4 header whose source is
/// denied, and every drop is reported.
pub proof fn only_denied_sources_are_dropped(
    verdict: Verdict,
    packet: Seq<u8>,
    now_ns: u64,
    denied: bool,
    flagged: bool,
)
    requires
        answers(verdict, packet, now_ns, denied, flagged),
    ensures
        verdict.action == XDP_DROP <==> ip_header(packet) is Some && denied,
        verdict.action == XDP_PASS <==> !(ip_header(packet) is Some && denied),
        verdict.action == XDP_DROP ==> verdict.event is Some,
{
}

} // verus!
