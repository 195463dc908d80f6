use core::mem::{align_of, size_of};

use shifting_ghost::common::event::parse_ebpf_event;
use shifting_ghost::common::traits::MemoryProvider;
use shifting_ghost::common::{
    Action, Alert, AlertLevel, EbpfEvent, FlowKey, FlowScore, FlowState, OperatingMode,
    PacketHeader, ReadyFlag, SignalError, SignalFrame, ARENA_SIZE_BYTES, BUCKET_POOL_SIZE,
    DENY_MAP_ID, EKF_INNOVATION_RING, EVENTS_PIN, FLOW_SCORE_POOL_SIZE, HISTORY_RING_CAPACITY,
    RING_PACKET_CAPACITY, SIEM_ALERT_RING, TARPIT_SLOT_POOL, WEIGHT_EKF, WEIGHT_ENTROPY,
    WEIGHT_SCALE, WEIGHT_VPIN, WHITELIST_MAX_ENTRIES,
};

#[test]
fn test_packet_header_size() {
    assert_eq!(size_of::<PacketHeader>(), 64);
}

#[test]
fn test_packet_header_alignment() {
    assert_eq!(align_of::<PacketHeader>(), 64);
}

#[test]
fn test_flow_key_size() {
    assert_eq!(size_of::<FlowKey>(), 64);
}

#[test]
fn test_flow_key_alignment() {
    assert_eq!(align_of::<FlowKey>(), 64);
}

#[test]
fn test_flow_score_size() {
    assert_eq!(size_of::<FlowScore>(), 64);
}

#[test]
fn test_flow_score_alignment() {
    assert_eq!(align_of::<FlowScore>(), 64);
}

#[test]
fn test_alert_alignment() {
    assert_eq!(align_of::<Alert>(), 64);
}

#[test]
fn test_ebpf_event_size() {
    assert_eq!(size_of::<EbpfEvent>(), 48);
}

#[test]
fn signal_frame_is_one_cache_line() {
    assert_eq!(size_of::<SignalFrame>(), 64);
    assert_eq!(align_of::<SignalFrame>(), 64);
}

#[test]
fn test_packet_header_is_pod() {
    fn assert_pod<T: Copy + Clone + core::fmt::Debug>() {}
    assert_pod::<PacketHeader>();
}

#[test]
fn test_flow_key_is_pod() {
    fn assert_pod<T: Copy + Clone + core::fmt::Debug + PartialEq + Eq + core::hash::Hash>() {}
    assert_pod::<FlowKey>();
}

#[test]
fn test_flow_score_is_pod() {
    fn assert_pod<T: Copy + Clone + core::fmt::Debug>() {}
    assert_pod::<FlowScore>();
}

#[test]
fn test_ebpf_event_is_pod() {
    fn assert_pod<T: Copy + Clone + core::fmt::Debug>() {}
    assert_pod::<EbpfEvent>();
}

#[test]
fn test_packet_header_send_sync() {
    fn assert_send_sync<T: Send + Sync>() {}
    assert_send_sync::<PacketHeader>();
}

#[test]
fn test_ready_flag_send_sync() {
    fn assert_send_sync<T: Send + Sync>() {}
    assert_send_sync::<ReadyFlag>();
}

#[test]
fn test_ready_flag_signal_poll() {
    let mut flag = ReadyFlag::new(false);
    assert!(!flag.poll_and_clear());
    flag.signal();
    assert!(flag.poll_and_clear());
    assert!(!flag.poll_and_clear());
}

#[test]
fn test_ready_flag_initial_true() {
    let mut flag = ReadyFlag::new(true);
    assert!(flag.poll_and_clear());
    assert!(!flag.poll_and_clear());
}

#[test]
fn test_flow_state_transitions_new() {
    let transitions = FlowState::New.valid_transitions();
    assert!(transitions.contains(&FlowState::Established));
    assert!(transitions.contains(&FlowState::Blocked));
    assert!(!transitions.contains(&FlowState::Expired));
    assert!(!transitions.contains(&FlowState::Suspicious));
    assert!(!transitions.contains(&FlowState::Honeypotted));
}

#[test]
fn test_flow_state_transitions_established() {
    let transitions = FlowState::Established.valid_transitions();
    assert!(transitions.contains(&FlowState::Suspicious));
    assert!(transitions.contains(&FlowState::Expired));
    assert!(!transitions.contains(&FlowState::New));
    assert!(!transitions.contains(&FlowState::Blocked));
}

#[test]
fn test_flow_state_transitions_suspicious() {
    let transitions = FlowState::Suspicious.valid_transitions();
    assert!(transitions.contains(&FlowState::Blocked));
    assert!(transitions.contains(&FlowState::Honeypotted));
    assert!(transitions.contains(&FlowState::Expired));
}

#[test]
fn test_flow_state_transitions_expired_is_terminal() {
    let transitions = FlowState::Expired.valid_transitions();
    assert!(transitions.is_empty());
}

#[test]
fn test_bellman_weights_sum() {
    let scale = WEIGHT_SCALE as f32;
    let sum = WEIGHT_ENTROPY as f32 / scale + WEIGHT_VPIN as f32 / scale + WEIGHT_EKF as f32 / scale;
    assert!((sum - 1.0_f32).abs() < f32::EPSILON * 3.0);
    assert_eq!(WEIGHT_ENTROPY + WEIGHT_VPIN + WEIGHT_EKF, WEIGHT_SCALE);
}

#[test]
fn test_operating_mode_size() {
    assert_eq!(size_of::<OperatingMode>(), 1);
}

#[test]
fn test_memory_provider_trait_compliance() {
    struct MockProvider {
        used: usize,
    }

    impl MemoryProvider for MockProvider {
        fn capacity(&self) -> usize {
            ARENA_SIZE_BYTES
        }

        fn used(&self) -> usize {
            self.used
        }

        fn free(&self) -> usize {
            ARENA_SIZE_BYTES - self.used
        }
    }

    let provider = MockProvider { used: 2_000_000 };
    assert_eq!(provider.capacity(), ARENA_SIZE_BYTES);
    assert_eq!(provider.used(), 2_000_000);
    assert_eq!(provider.free(), ARENA_SIZE_BYTES - 2_000_000);
    assert_eq!(provider.used() + provider.free(), provider.capacity());
}

#[test]
fn tests_test_arena_math_invariant() {
    let packet_header_size = size_of::<PacketHeader>();

    let packet_ring_bytes = RING_PACKET_CAPACITY * packet_header_size;
    let bucket_pool_bytes = BUCKET_POOL_SIZE * 1000 * packet_header_size;
    let flow_score_pool_bytes = FLOW_SCORE_POOL_SIZE * size_of::<FlowScore>();
    let ssa_history_bytes = HISTORY_RING_CAPACITY * size_of::<f32>();
    let ekf_innovation_bytes = EKF_INNOVATION_RING * size_of::<f32>();
    let bellman_history_bytes = HISTORY_RING_CAPACITY * size_of::<f32>();
    let whitelist_bytes = WHITELIST_MAX_ENTRIES * size_of::<u64>();
    let tarpit_bytes = TARPIT_SLOT_POOL * 64usize;
    let siem_alert_bytes = SIEM_ALERT_RING * 256usize;

    let total = packet_ring_bytes
        + bucket_pool_bytes
        + flow_score_pool_bytes
        + ssa_history_bytes
        + ekf_innovation_bytes
        + bellman_history_bytes
        + whitelist_bytes
        + tarpit_bytes
        + siem_alert_bytes;

    assert!(
        total < ARENA_SIZE_BYTES,
        "Arena budget exceeded: used {} of {} bytes",
        total,
        ARENA_SIZE_BYTES,
    );

    let margin = 32 * 1024 * 1024usize;
    assert!(
        ARENA_SIZE_BYTES - total >= margin,
        "Overhead margin < 32 MiB: only {} bytes remaining",
        ARENA_SIZE_BYTES - total,
    );
}

#[test]
fn test_alert_write_kind_copies_tag() {
    let tag = b"port_scan";
    let alert = Alert::write_kind(
        0,
        FlowKey::default(),
        FlowScore::default(),
        AlertLevel::Medium,
        Action::Observe,
        tag,
    );

    assert_eq!(alert.kind_len as usize, tag.len());
    assert_eq!(&alert.kind_tag[..tag.len()], tag.as_ref());
    for byte in &alert.kind_tag[tag.len()..] {
        assert_eq!(*byte, 0u8);
    }
}

#[test]
fn test_alert_write_kind_truncates_at_32() {
    let tag = b"this_tag_is_longer_than_32_bytes_abcdef";
    let alert = Alert::write_kind(
        0,
        FlowKey::default(),
        FlowScore::default(),
        AlertLevel::High,
        Action::Drop,
        tag,
    );

    assert_eq!(alert.kind_len, 32u8);
    assert_eq!(&alert.kind_tag[..], &tag[..32]);
}

#[test]
fn test_ebpf_event_default_is_zero() {
    let ev = EbpfEvent::default();
    assert_eq!(ev.timestamp_ns, 0);
    assert_eq!(ev.pid, 0);
    assert_eq!(ev.uid, 0);
    assert_eq!(ev.src_ip, 0);
    assert_eq!(ev.dst_ip, 0);
    assert_eq!(ev.src_port, 0);
    assert_eq!(ev.dst_port, 0);
    assert_eq!(ev.protocol, 0);
    assert_eq!(ev.event_type, 0);
    assert_eq!(ev._pad, [0u8; 2]);
    assert_eq!(ev.comm, [0u8; 16]);
}

#[test]
fn flow_keys_compare_by_their_fields() {
    let key = FlowKey {
        src_ip: 1,
        ..FlowKey::default()
    };
    assert_eq!(key, key);
    assert_ne!(key, FlowKey::default());
}

#[test]
fn error_codes_round_trip() {
    assert_eq!(SignalError::from_u32(1), Some(SignalError::Truncated));
    assert_eq!(SignalError::from_u32(2), Some(SignalError::HashCollision));
    assert_eq!(SignalError::from_u32(3), Some(SignalError::PpsOverflow));
    assert_eq!(SignalError::from_u32(0), None);
    assert_eq!(SignalError::from_u32(4), None);
    assert_eq!(SignalError::PpsOverflow.as_u32(), 3);
    assert_eq!(
        SignalError::Truncated.message(),
        "SignalError::Truncated(ring buffer overrun; frames dropped)"
    );
}

#[test]
fn map_identities() {
    assert_eq!(EVENTS_PIN, "/sys/fs/bpf/cyber_signals");
    assert_eq!(DENY_MAP_ID, 1);
}

#[test]
fn frame_layout_in_the_ring() {
    let mut frame = SignalFrame::zeroed();
    frame.flow_hash = 0x0102_0304_0506_0708;
    frame.timestamp_ns = 0x1112_1314_1516_1718;
    frame.l3_hdr[0] = 0x45;
    frame.l3_hdr[19] = 0x99;
    frame.l4_flags = 0x2122_2324;
    frame.pps_delta = 0x3132_3334;
    frame.cpu_id = 0x4142_4344;
    let raw = frame.to_bytes();
    assert_eq!(&raw[0..8], &[8, 7, 6, 5, 4, 3, 2, 1]);
    assert_eq!(&raw[8..16], &[0x18, 0x17, 0x16, 0x15, 0x14, 0x13, 0x12, 0x11]);
    assert_eq!(raw[16], 0x45);
    assert_eq!(raw[35], 0x99);
    assert_eq!(&raw[36..40], &[0x24, 0x23, 0x22, 0x21]);
    assert_eq!(&raw[40..44], &[0x34, 0x33, 0x32, 0x31]);
    assert_eq!(&raw[44..48], &[0x44, 0x43, 0x42, 0x41]);
    assert_eq!(&raw[48..64], &[0u8; 16]);

    let back = SignalFrame::from_bytes(&raw).expect("one frame");
    assert_eq!(back.flow_hash, frame.flow_hash);
    assert_eq!(back.cpu_id, frame.cpu_id);
    assert_eq!(back.to_bytes(), raw);
    assert!(SignalFrame::from_bytes(&raw[..63]).is_none());
}

#[test]
fn event_layout_in_the_ring() {
    let event = EbpfEvent {
        timestamp_ns: 0x0102_0304_0506_0708,
        pid: 0x1112_1314,
        uid: 1000,
        src_ip: 0xC0A8_0001,
        dst_ip: 0x0A00_0001,
        src_port: 443,
        dst_port: 51234,
        protocol: 6,
        event_type: 3,
        _pad: [0; 2],
        comm: *b"bash\0\0\0\0\0\0\0\0\0\0\0\0",
    };
    let raw = event.to_bytes();
    assert_eq!(raw.len(), 48);
    assert_eq!(&raw[8..12], &[0x14, 0x13, 0x12, 0x11]);
    assert_eq!(&raw[24..26], &[0xBB, 0x01]);
    assert_eq!(raw[28], 6);
    assert_eq!(raw[29], 3);
    assert_eq!(&raw[32..36], b"bash");

    let mut record = raw.to_vec();
    record.push(0xFF);
    let back = parse_ebpf_event(&record);
    assert_eq!(back.to_bytes(), raw);
}
