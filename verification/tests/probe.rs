use shifting_ghost::common::FlowKey;
use shifting_ghost::probe::filter::let_through;
use shifting_ghost::probe::ingress::{parse_ip, parse_transport};
use shifting_ghost::probe::proto_view::l4_flags;
use shifting_ghost::probe::signal::ring_output;
use shifting_ghost::probe::{
    deny_check, execve_monitor, fmix32, inspect, murmur3_13, packet_ingress, select, tcp_fp_probe,
    xdp_ingress, BpfFlowKey, FpParams, TaskContext, MAXPPS_THRESHOLD, XDP_DROP, XDP_PASS,
};

/// An Ethernet, IPv4 and transport header: 192.168.0.1:443 to 10.0.0.1:51234.
fn packet(protocol: u8, ihl_words: u8, len: usize) -> Vec<u8> {
    let mut p = vec![0u8; len];
    p[12] = 0x08;
    p[13] = 0x00;
    p[14] = 0x40 | ihl_words;
    p[23] = protocol;
    p[26..30].copy_from_slice(&[192, 168, 0, 1]);
    p[30..34].copy_from_slice(&[10, 0, 0, 1]);
    let t = 14 + 4 * ihl_words as usize;
    if t + 4 <= len {
        p[t..t + 2].copy_from_slice(&443u16.to_be_bytes());
        p[t + 2..t + 4].copy_from_slice(&51234u16.to_be_bytes());
    }
    p
}

const SRC: u32 = 0xC0A8_0001;
const DST: u32 = 0x0A00_0001;
const TUPLE_HASH: u32 = 0x1dd3_7aa6;

#[test]
fn hash_of_known_tuples() {
    assert_eq!(murmur3_13(0, 0, 0, 0, 0), 0xb996_0eb1);
    assert_eq!(murmur3_13(SRC, DST, 443, 51234, 6), TUPLE_HASH);
    assert_eq!(murmur3_13(0xCB00_7107, 0xC000_0201, 53, 40000, 17), 0x0e90_0d2a);
    assert_eq!(murmur3_13(0x0102_0304, 0x0506_0708, 1, 2, 255), 0x0b11_a942);
    assert_eq!(fmix32(0), 0);
    assert_eq!(fmix32(1), 0x514e_28b7);
    assert_eq!(fmix32(0xdead_beef), 0x0de5_c6a9);
}

#[test]
fn inspect_reads_the_tuple() {
    let view = inspect(&packet(6, 5, 54)).expect("signal");
    assert_eq!(view.src_ip, SRC);
    assert_eq!(view.dst_ip, DST);
    assert_eq!(view.src_port, 443);
    assert_eq!(view.dst_port, 51234);
    assert_eq!(view.proto, 6);
    assert_eq!(view.l3_hdr[0], 0x45);
    assert_eq!(&view.l3_hdr[12..16], &[192, 168, 0, 1]);
}

#[test]
fn inspect_ignores_other_traffic() {
    assert!(inspect(&packet(6, 5, 53)).is_none());
    assert!(inspect(&packet(17, 5, 54)).is_some());
    assert!(inspect(&packet(1, 5, 54)).is_none());
    assert!(inspect(&[]).is_none());
    let mut ipv6 = packet(6, 5, 54);
    ipv6[12] = 0x86;
    ipv6[13] = 0xDD;
    assert!(inspect(&ipv6).is_none());
}

#[test]
fn transport_word_holds_flags_and_protocol() {
    let mut p = packet(6, 5, 54);
    p[46] = 0x51;
    p[47] = 0x12;
    assert_eq!(l4_flags(&p), 0x0006_0112);
    p[46] = 0x50;
    assert_eq!(l4_flags(&p), 0x0006_0012);
    let mut options = packet(6, 6, 60);
    options[46] = 0xFF;
    options[47] = 0xFF;
    options[51] = 0x12;
    assert_eq!(l4_flags(&options), 0x0006_0012);
    assert_eq!(l4_flags(&packet(6, 15, 60)), 0x0006_0000);
    let mut u = packet(17, 5, 54);
    u[47] = 0xFF;
    assert_eq!(l4_flags(&u), 0x0011_0000);
}

#[test]
fn deny_map_is_asked_for_the_low_bits() {
    let asked = |index: u32| if index == 0x7aa6 { Some(1u8) } else { None };
    assert!(deny_check(&asked, TUPLE_HASH as u64));
    assert!(deny_check(&asked, 0x5_0000_7aa6));
    assert!(!deny_check(&asked, 0x7aa7));
    assert!(!deny_check(&|_: u32| Some(0u8), 0x7aa6));
}

#[test]
fn filter_counts_what_it_lets_through() {
    let mut count = 41u64;
    let r = let_through(9, false, Some(&mut count)).expect("room");
    assert_eq!((r.flow_hash, r.pps_delta, count), (9, 41, 42));
    assert!(let_through(9, true, Some(&mut count)).is_none());
    assert_eq!(count, 42);
    let mut full = MAXPPS_THRESHOLD;
    assert!(let_through(9, false, Some(&mut full)).is_none());
    assert_eq!(full, MAXPPS_THRESHOLD);
    let mut last = MAXPPS_THRESHOLD - 1;
    assert!(let_through(9, false, Some(&mut last)).is_some());
    assert_eq!(last, MAXPPS_THRESHOLD);
    assert!(let_through(9, false, None).is_none());
}

#[test]
fn select_hashes_then_asks_then_counts() {
    let view = inspect(&packet(6, 5, 54)).expect("signal");
    let mut count = 0u64;
    let r = select(&view, &|_: u32| None, Some(&mut count)).expect("let through");
    assert_eq!(r.flow_hash, TUPLE_HASH as u64);
    assert_eq!(r.pps_delta, 0);
    assert_eq!(count, 1);
    let denied = |index: u32| Some((index == 0x7aa6) as u8);
    assert!(select(&view, &denied, Some(&mut count)).is_none());
    assert_eq!(count, 1);
}

#[test]
fn signal_probe_builds_a_frame_and_always_passes() {
    let mut p = packet(6, 5, 60);
    p[47] = 0x02;
    let mut count = 7u64;
    let v = xdp_ingress(&p, 3, 1_000, &|_: u32| None, Some(&mut count));
    assert_eq!(v.action, XDP_PASS);
    let frame = v.frame.expect("frame");
    assert_eq!(frame.flow_hash, TUPLE_HASH as u64);
    assert_eq!(frame.timestamp_ns, 1_000);
    assert_eq!(&frame.l3_hdr[..], &p[14..34]);
    assert_eq!(frame.l4_flags, 0x0006_0002);
    assert_eq!(frame.pps_delta, 7);
    assert_eq!(frame.cpu_id, 3);
    assert_eq!(frame._pad, [0u8; 16]);
    assert_eq!(count, 8);

    let v = xdp_ingress(&p, 3, 1_000, &|_: u32| Some(1), Some(&mut count));
    assert_eq!(v.action, XDP_PASS);
    assert!(v.frame.is_none());
    assert_eq!(count, 8);

    let v = xdp_ingress(&p[..20], 3, 1_000, &|_: u32| None, Some(&mut count));
    assert_eq!(v.action, XDP_PASS);
    assert!(v.frame.is_none());
    assert_eq!(count, 8);
}

#[test]
fn ring_answers() {
    assert!(ring_output(Ok(())));
    assert!(!ring_output(Err(-11)));
}

#[test]
fn ip_header_is_bounds_checked() {
    let ip = parse_ip(&packet(6, 6, 60)).expect("ip");
    assert_eq!(ip.header_len, 24);
    assert_eq!((ip.protocol, ip.src_ip, ip.dst_ip), (6, SRC, DST));
    assert!(parse_ip(&packet(6, 4, 60)).is_none());
    assert!(parse_ip(&packet(6, 15, 60)).is_none());
    assert!(parse_ip(&packet(6, 5, 60)[..33]).is_none());
    assert!(parse_ip(&[0u8; 13]).is_none());
}

#[test]
fn transport_header_is_bounds_checked() {
    let mut p = packet(6, 5, 54);
    p[47] = 0x12;
    assert_eq!(parse_transport(&p, 34, 6), Ok((443, 51234, 0x12)));
    assert_eq!(parse_transport(&p, 35, 6), Err(()));
    assert_eq!(parse_transport(&p, 34, 17), Ok((443, 51234, 0)));
    assert_eq!(parse_transport(&p, 47, 17), Err(()));
    assert_eq!(parse_transport(&p, usize::MAX, 17), Err(()));
    assert_eq!(parse_transport(&p, 34, 1), Ok((0, 0, 0)));
    assert_eq!(parse_transport(&p, 34, 99), Ok((0, 0, 0)));
}

#[test]
fn packet_probe_reports_and_passes() {
    let p = packet(6, 5, 54);
    let v = packet_ingress(&p, 77, &|_: u32| false, &|_: BpfFlowKey| false);
    assert_eq!(v.action, XDP_PASS);
    let ev = v.event.expect("event");
    assert_eq!(ev.timestamp_ns, 77);
    assert_eq!((ev.pid, ev.uid, ev.comm), (0, 0, [0u8; 16]));
    assert_eq!((ev.src_ip, ev.dst_ip), (SRC, DST));
    assert_eq!((ev.src_port, ev.dst_port), (443, 51234));
    assert_eq!((ev.protocol, ev.event_type), (6, 0));
}

#[test]
fn packet_probe_marks_flagged_flows() {
    let p = packet(6, 6, 60);
    let flagged = |k: BpfFlowKey| {
        k.src_ip == SRC && k.dst_ip == DST && k.src_port == 443 && k.dst_port == 51234 && k.protocol == 6
    };
    let v = packet_ingress(&p, 1, &|_: u32| false, &flagged);
    assert_eq!(v.action, XDP_PASS);
    assert_eq!(v.event.expect("event").event_type, 6);
    let p = packet(6, 5, 60);
    let v = packet_ingress(&p, 1, &|_: u32| false, &flagged);
    assert_eq!(v.event.expect("event").event_type, 6);
}

#[test]
fn packet_probe_drops_denied_sources_and_says_so() {
    let p = packet(6, 5, 54);
    let v = packet_ingress(&p, 5, &|ip: u32| ip == SRC, &|_: BpfFlowKey| true);
    assert_eq!(v.action, XDP_DROP);
    let ev = v.event.expect("event");
    assert_eq!((ev.src_port, ev.dst_port, ev.event_type), (0, 0, 0));
    assert_eq!((ev.src_ip, ev.protocol), (SRC, 6));
}

#[test]
fn packet_probe_passes_what_it_cannot_read() {
    let truncated = packet(6, 5, 50);
    let v = packet_ingress(&truncated, 5, &|_: u32| false, &|_: BpfFlowKey| false);
    assert_eq!(v.action, XDP_PASS);
    assert!(v.event.is_none());
    let v = packet_ingress(&[0u8; 10], 5, &|_: u32| true, &|_: BpfFlowKey| true);
    assert_eq!(v.action, XDP_PASS);
    assert!(v.event.is_none());
    let icmp = packet(1, 5, 34);
    let v = packet_ingress(&icmp, 5, &|_: u32| false, &|_: BpfFlowKey| false);
    let ev = v.event.expect("event");
    assert_eq!((ev.src_port, ev.dst_port, ev.protocol), (0, 0, 1));
}

fn task() -> TaskContext {
    TaskContext {
        pid_tgid: 0x0000_0009_0000_0007,
        uid_gid: 0x0000_0064_0000_03E8,
        comm: Some(*b"sshd\0\0\0\0\0\0\0\0\0\0\0\0"),
    }
}

#[test]
fn fingerprint_probe_reports_armed_flows() {
    let p = packet(6, 5, 54);
    let v = tcp_fp_probe(&p, task(), 8, &|k: BpfFlowKey| k.src_port == 443);
    assert_eq!(v.action, XDP_PASS);
    let ev = v.event.expect("event");
    assert_eq!((ev.pid, ev.uid), (7, 1000));
    assert_eq!(&ev.comm[..4], b"sshd");
    assert_eq!((ev.event_type, ev.src_port, ev.timestamp_ns), (6, 443, 8));

    let v = tcp_fp_probe(&p, task(), 8, &|_: BpfFlowKey| false);
    assert_eq!(v.action, XDP_PASS);
    assert!(v.event.is_none());
    assert!(tcp_fp_probe(&packet(17, 5, 54), task(), 8, &|_: BpfFlowKey| true).event.is_none());
    assert!(tcp_fp_probe(&packet(6, 15, 54), task(), 8, &|_: BpfFlowKey| true).event.is_none());
    assert!(tcp_fp_probe(&p[..53], task(), 8, &|_: BpfFlowKey| true).event.is_none());
}

#[test]
fn execve_event_names_the_task() {
    let ev = execve_monitor(task(), 11);
    assert_eq!((ev.pid, ev.uid, ev.event_type), (7, 1000, 3));
    assert_eq!((ev.src_ip, ev.dst_port, ev.protocol), (0, 0, 0));
    assert_eq!(&ev.comm[..4], b"sshd");
    let nameless = TaskContext {
        comm: None,
        ..task()
    };
    assert_eq!(execve_monitor(nameless, 11).comm, [0u8; 16]);
}

#[test]
fn test_fp_params_default_is_inert() {
    let p = FpParams::default();
    assert_eq!(p.window_size, 0);
    assert_eq!(p.ttl, 0);
    assert_eq!(p.df_bit, 0);
    assert_eq!(p._reserved, [0u8; 4]);
}

#[test]
fn test_fp_params_size() {
    assert_eq!(core::mem::size_of::<FpParams>(), 8);
}

#[test]
fn map_key_of_a_flow() {
    let key = BpfFlowKey::from(FlowKey {
        src_ip: SRC,
        dst_ip: DST,
        src_port: 443,
        dst_port: 51234,
        protocol: 17,
        ..FlowKey::default()
    });
    assert_eq!((key.src_ip, key.dst_ip), (SRC, DST));
    assert_eq!((key.src_port, key.dst_port, key.protocol), (443, 51234, 17));
    assert_eq!(key._pad, [0u8; 3]);
    assert_eq!(core::mem::size_of::<BpfFlowKey>(), 16);
}
