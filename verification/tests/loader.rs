use std::cell::RefCell;

use shifting_ghost::common::traits::{EbpfSource, MAX_DRAIN_EVENTS};
use shifting_ghost::common::{EbpfEvent, FlowKey, ReadyFlag};
use shifting_ghost::loader::attach::{TracepointStep, XdpStep};
use shifting_ghost::loader::boot::{MapName, RingFault};
use shifting_ghost::loader::caps::{as_answer, query, require_cap, verify_with_query, RequiredCap};
use shifting_ghost::loader::map_commands::{
    clear_scan_flag, remove_deny_entry, settle, write_deny_entry, write_inert_fingerprint,
    write_scan_flag,
};
use shifting_ghost::loader::{
    verify_capabilities, verify_with_checker, Boot, BootStep, CapabilityError, EbpfSourceError,
    EventDrain, LoadError, MapCommand, MapError, MapOutcome, ProbeStatus, ProbeStatusMap,
};

#[test]
fn test_cap_bpf_absent_clean_error() {
    match verify_with_checker(|| Ok((false, true))) {
        Err(CapabilityError::MissingCapBpf) => {}
        other => panic!("expected MissingCapBpf, got: {other:?}"),
    }
}

#[test]
fn test_cap_net_admin_absent_clean_error() {
    match verify_with_checker(|| Ok((true, false))) {
        Err(CapabilityError::MissingCapNetAdmin) => {}
        other => panic!("expected MissingCapNetAdmin, got: {other:?}"),
    }
}

#[test]
fn test_cap_check_io_failure() {
    match verify_with_checker(|| {
        Err(std::io::Error::new(
            std::io::ErrorKind::PermissionDenied,
            "denied",
        ))
    }) {
        Err(CapabilityError::CheckFailed(_)) => {}
        other => panic!("expected CheckFailed, got: {other:?}"),
    }
}

#[test]
fn test_cap_all_present_returns_ok() {
    assert!(verify_with_checker(|| Ok((true, true))).is_ok());
}

#[test]
fn capabilities_of_this_process_follow_the_system() {
    let held = |cap| {
        caps::has_cap(None, caps::CapSet::Effective, cap)
            .map_err(|e| std::io::Error::new(std::io::ErrorKind::Other, e))
    };
    let expected = match require_cap(RequiredCap::Bpf, held(caps::Capability::CAP_BPF)) {
        Ok(()) => require_cap(RequiredCap::NetAdmin, held(caps::Capability::CAP_NET_ADMIN)),
        Err(e) => Err(e),
    };
    assert_eq!(format!("{:?}", verify_capabilities()), format!("{expected:?}"));
    let bpf = held(caps::Capability::CAP_BPF);
    assert_eq!(format!("{:?}", query(RequiredCap::Bpf)), format!("{bpf:?}"));
    let net_admin = held(caps::Capability::CAP_NET_ADMIN);
    assert_eq!(format!("{:?}", query(RequiredCap::NetAdmin)), format!("{net_admin:?}"));
}

#[test]
fn replies_are_passed_on() {
    assert!(matches!(as_answer(Ok(true)), Ok(true)));
    assert!(matches!(as_answer(Ok(false)), Ok(false)));
    let refused = as_answer(Err(caps::errors::CapsError::from("no such set")));
    match refused {
        Err(e) => {
            assert_eq!(e.kind(), std::io::ErrorKind::Other);
            assert_eq!(format!("{e}"), "caps error: no such set");
        }
        Ok(held) => panic!("expected an error, got: {held}"),
    }
}

#[test]
fn one_capability_at_a_time() {
    assert!(require_cap(RequiredCap::Bpf, Ok(true)).is_ok());
    assert!(matches!(
        require_cap(RequiredCap::Bpf, Ok(false)),
        Err(CapabilityError::MissingCapBpf)
    ));
    assert!(matches!(
        require_cap(RequiredCap::NetAdmin, Ok(false)),
        Err(CapabilityError::MissingCapNetAdmin)
    ));
    match require_cap(
        RequiredCap::Bpf,
        Err(std::io::Error::new(std::io::ErrorKind::Other, "no kernel")),
    ) {
        Err(CapabilityError::CheckFailed(e)) => assert_eq!(format!("{e}"), "no kernel"),
        other => panic!("expected CheckFailed, got: {other:?}"),
    }
}

#[test]
fn test_loader_degraded_mode() {
    let s = ProbeStatusMap {
        packet_ingress: ProbeStatus::Attached,
        execve_monitor: ProbeStatus::Degraded,
        tcp_fp_probe: ProbeStatus::Degraded,
    };
    assert!(s.any_attached());
}

#[test]
fn test_loader_all_degraded_none_attached() {
    let s = ProbeStatusMap {
        packet_ingress: ProbeStatus::Degraded,
        execve_monitor: ProbeStatus::Degraded,
        tcp_fp_probe: ProbeStatus::Degraded,
    };
    assert!(!s.any_attached());
}

#[test]
fn test_ringbuf_drain_bounded_returns_empty_slice() {
    struct MockSource;
    impl EbpfSource for MockSource {
        type Error = ();
        fn drain_events<'a>(
            &'a self,
            out: &'a mut [EbpfEvent; MAX_DRAIN_EVENTS],
        ) -> Result<&'a [EbpfEvent], ()> {
            let _ = out;
            Ok(&[])
        }
        fn ringbuf_drop_count(&self) -> u64 {
            0
        }
        fn write_deny_map(&self, _: u32) -> Result<(), ()> {
            Ok(())
        }
        fn write_fingerprint_map(&self, _: FlowKey) -> Result<(), ()> {
            Ok(())
        }
    }

    let mut out = [EbpfEvent::default(); MAX_DRAIN_EVENTS];
    let slice = MockSource.drain_events(&mut out).expect("must not error");
    assert!(slice.is_empty());
}

#[test]
fn test_drain_events_bounded_by_max() {
    struct FullSource {
        event: EbpfEvent,
    }
    impl EbpfSource for FullSource {
        type Error = ();
        fn drain_events<'a>(
            &'a self,
            out: &'a mut [EbpfEvent; MAX_DRAIN_EVENTS],
        ) -> Result<&'a [EbpfEvent], ()> {
            for s in out.iter_mut() {
                *s = self.event;
            }
            Ok(&out[..MAX_DRAIN_EVENTS])
        }
        fn ringbuf_drop_count(&self) -> u64 {
            0
        }
        fn write_deny_map(&self, _: u32) -> Result<(), ()> {
            Ok(())
        }
        fn write_fingerprint_map(&self, _: FlowKey) -> Result<(), ()> {
            Ok(())
        }
    }

    let mut out = [EbpfEvent::default(); MAX_DRAIN_EVENTS];
    let source = FullSource {
        event: EbpfEvent::default(),
    };
    let slice = source.drain_events(&mut out).expect("must not error");
    assert!(slice.len() <= MAX_DRAIN_EVENTS);
}

#[test]
fn test_ready_flag_signal_and_clear() {
    let mut flag = ReadyFlag::new(false);
    assert!(!flag.poll_and_clear());
    flag.signal();
    assert!(flag.poll_and_clear());
    assert!(!flag.poll_and_clear());
}

#[test]
fn drain_parses_whole_events_and_counts_short_records() {
    let mut out = [EbpfEvent::default(); MAX_DRAIN_EVENTS];
    let mut drain = EventDrain::new();
    let mut event = EbpfEvent::default();
    event.pid = 4711;
    let raw = event.to_bytes();

    let mut count = 0usize;
    assert!(EventDrain::has_room(count));
    count = drain.take_record(&raw[..47], &mut out, count);
    assert_eq!((count, drain.ringbuf_drops), (0, 1));
    count = drain.take_record(&raw, &mut out, count);
    assert_eq!((count, drain.ringbuf_drops), (1, 1));
    assert_eq!(out[0].pid, 4711);
    assert_eq!(out[1].pid, 0);
    while EventDrain::has_room(count) {
        count = drain.take_record(&raw, &mut out, count);
    }
    assert_eq!(count, MAX_DRAIN_EVENTS);
    assert_eq!(out[MAX_DRAIN_EVENTS - 1].pid, 4711);

    drain.ringbuf_drops = u64::MAX;
    drain.take_record(&[], &mut out, 0);
    assert_eq!(drain.ringbuf_drops, u64::MAX);
    assert_eq!(drain.ringbuf_drop_count(), u64::MAX);
}

#[test]
fn drain_keeps_the_usable_records_in_order() {
    let mut out = [EbpfEvent::default(); MAX_DRAIN_EVENTS];
    let mut drain = EventDrain::new();
    let mut count = 0usize;
    for pid in [1u32, 0, 2, 0, 3] {
        let mut event = EbpfEvent::default();
        event.pid = pid;
        let raw = event.to_bytes();
        let len = if pid == 0 { 40 } else { 48 };
        count = drain.take_record(&raw[..len], &mut out, count);
    }
    assert_eq!((count, drain.ringbuf_drops), (3, 2));
    assert_eq!((out[0].pid, out[1].pid, out[2].pid, out[3].pid), (1, 2, 3, 0));
}

#[test]
fn shared_drain_hands_out_nothing() {
    let mut out = [EbpfEvent::default(); MAX_DRAIN_EVENTS];
    let drain = EventDrain::new();
    assert!(drain.drain_events(&mut out).expect("no error").is_empty());
    assert!(drain.write_deny_map(1).is_ok());
    assert!(drain.write_fingerprint_map(FlowKey::default()).is_ok());
}

#[test]
fn interface_probe_falls_back_to_the_generic_mode() {
    let step = XdpStep::FindProgram.after(true).after(true).after(true);
    assert_eq!(step, XdpStep::AttachNative);
    assert_eq!(step.after(true), XdpStep::Done(ProbeStatus::Attached));
    assert_eq!(step.after(false), XdpStep::AttachGeneric);
    assert_eq!(step.after(false).after(true), XdpStep::Done(ProbeStatus::Attached));
    assert_eq!(step.after(false).after(false), XdpStep::Done(ProbeStatus::Degraded));
    assert_eq!(XdpStep::FindProgram.after(false), XdpStep::Done(ProbeStatus::Degraded));
    assert_eq!(XdpStep::CheckProgram.after(false), XdpStep::Done(ProbeStatus::Degraded));
    assert_eq!(XdpStep::LoadProgram.after(false), XdpStep::Done(ProbeStatus::Degraded));
}

#[test]
fn tracepoint_probe_needs_every_step() {
    let mut step = TracepointStep::LoadObject;
    for _ in 0..5 {
        assert_eq!(step.after(false), TracepointStep::Done(ProbeStatus::Degraded));
        step = step.after(true);
    }
    assert_eq!(step, TracepointStep::Done(ProbeStatus::Attached));
}

fn boot_where(works: impl Fn(&BootStep) -> bool) -> (Boot, bool) {
    let mut boot = Boot::new();
    let mut ready = ReadyFlag::new(false);
    boot.check_capabilities(Ok(()));
    for _ in 0..40 {
        let succeeded = works(&boot.step);
        boot.advance(succeeded, &mut ready);
    }
    (boot, ready.poll_and_clear())
}

#[test]
fn boot_comes_up_and_raises_the_flag() {
    let (boot, ready) = boot_where(|_| true);
    assert!(matches!(boot.step, BootStep::Live));
    assert!(ready);
    let status = boot.probe_status();
    assert_eq!(status.packet_ingress, ProbeStatus::Attached);
    assert_eq!(status.execve_monitor, ProbeStatus::Attached);
    assert_eq!(status.tcp_fp_probe, ProbeStatus::Degraded);
}

#[test]
fn boot_tolerates_one_missing_probe_and_the_logger() {
    let (boot, ready) = boot_where(|s| {
        !matches!(s, BootStep::Logger | BootStep::Execve(TracepointStep::Attach))
    });
    assert!(matches!(boot.step, BootStep::Live));
    assert!(ready);
    assert_eq!(boot.probe_status().execve_monitor, ProbeStatus::Degraded);

    let (boot, ready) =
        boot_where(|s| !matches!(s, BootStep::Ingress(XdpStep::LoadProgram)));
    assert!(matches!(boot.step, BootStep::Live));
    assert!(ready);
    assert_eq!(boot.probe_status().packet_ingress, ProbeStatus::Degraded);
}

#[test]
fn boot_hands_the_privilege_error_out() {
    let mut boot = Boot::new();
    boot.check_capabilities(Err(CapabilityError::MissingCapNetAdmin));
    assert!(matches!(
        boot.step,
        BootStep::Failed(LoadError::Capabilities(CapabilityError::MissingCapNetAdmin))
    ));

    let mut boot = Boot::new();
    let mut ready = ReadyFlag::new(false);
    boot.check_capabilities(Err(CapabilityError::CheckFailed(std::io::Error::new(
        std::io::ErrorKind::Other,
        "no kernel",
    ))));
    boot.advance(true, &mut ready);
    assert!(!ready.poll_and_clear());
    match boot.step {
        BootStep::Failed(LoadError::Capabilities(CapabilityError::CheckFailed(e))) => {
            assert_eq!(format!("{e}"), "no kernel");
        }
        other => panic!("unexpected {other:?}"),
    }
}

#[test]
fn boot_names_what_failed() {
    let end = |works: &dyn Fn(&BootStep) -> bool| {
        let (boot, ready) = boot_where(works);
        assert!(!ready);
        match boot.step {
            BootStep::Failed(error) => error,
            other => panic!("unexpected {other:?}"),
        }
    };
    assert!(matches!(
        end(&|s| !matches!(s, BootStep::LoadPrimary)),
        LoadError::PrimaryLoadFailed
    ));
    assert!(matches!(
        end(&|s| {
            !matches!(
                s,
                BootStep::Ingress(XdpStep::FindProgram)
                    | BootStep::Execve(TracepointStep::LoadObject)
            )
        }),
        LoadError::AllProbesFailed
    ));
    assert!(matches!(
        end(&|s| !matches!(s, BootStep::TakeEventRing)),
        LoadError::RingbufFailed(RingFault::NotFound)
    ));
    assert!(matches!(
        end(&|s| !matches!(s, BootStep::OpenEventRing)),
        LoadError::RingbufFailed(RingFault::NotARing)
    ));
    for name in [MapName::Deny, MapName::ScanFlag, MapName::Fingerprint] {
        match end(&|s| !matches!(s, BootStep::TakeMap(n) if *n == name)) {
            LoadError::MapSetup(e) => assert_eq!(e, MapError::NotFound { name }),
            other => panic!("unexpected {other:?}"),
        }
        match end(&|s| !matches!(s, BootStep::OpenMap(n) if *n == name)) {
            LoadError::MapSetup(e) => assert_eq!(e, MapError::Operation { name }),
            other => panic!("unexpected {other:?}"),
        }
    }
    assert_eq!(MapName::Deny.as_str(), "DENY_MAP");
    assert_eq!(MapName::ScanFlag.as_str(), "SCAN_FLAG_MAP");
    assert_eq!(MapName::Fingerprint.as_str(), "FINGERPRINT_MAP");
}

#[test]
fn privileges_are_asked_for_in_turn() {
    let asked: RefCell<Vec<RequiredCap>> = RefCell::new(Vec::new());
    let verdict = verify_with_query(&|cap: RequiredCap| {
        asked.borrow_mut().push(cap);
        Ok(cap == RequiredCap::Bpf)
    });
    assert!(matches!(verdict, Err(CapabilityError::MissingCapNetAdmin)));
    assert_eq!(*asked.borrow(), vec![RequiredCap::Bpf, RequiredCap::NetAdmin]);

    asked.borrow_mut().clear();
    let verdict = verify_with_query(&|cap: RequiredCap| {
        asked.borrow_mut().push(cap);
        Ok(false)
    });
    assert!(matches!(verdict, Err(CapabilityError::MissingCapBpf)));
    assert_eq!(*asked.borrow(), vec![RequiredCap::Bpf]);
    assert!(verify_with_query(&|_: RequiredCap| Ok(true)).is_ok());
}

#[test]
fn privilege_errors_say_what_to_do() {
    assert_eq!(
        CapabilityError::MissingCapBpf.message(),
        "missing CAP_BPF \u{2014} run as root or: setcap cap_bpf+ep <binary>  (see `man 7 capabilities`)"
    );
    assert_eq!(
        CapabilityError::MissingCapNetAdmin.message(),
        "missing CAP_NET_ADMIN \u{2014} XDP attachment requires this capability  (see `man 7 capabilities`)"
    );
}

#[test]
fn map_commands_carry_keys_and_values() {
    assert!(matches!(
        write_deny_entry(9),
        MapCommand::InsertDeny { key: 9, value: 1, flags: 0 }
    ));
    assert!(matches!(remove_deny_entry(9), MapCommand::RemoveDeny { key: 9 }));
    let flow = FlowKey {
        src_ip: 5,
        dst_port: 22,
        ..FlowKey::default()
    };
    match write_scan_flag(flow, 99) {
        MapCommand::InsertScanFlag { key, value, flags } => {
            assert_eq!((key.src_ip, key.dst_port, value, flags), (5, 22, 99, 0));
        }
        other => panic!("unexpected {other:?}"),
    }
    match clear_scan_flag(flow) {
        MapCommand::RemoveScanFlag { key } => assert_eq!((key.src_ip, key.dst_port), (5, 22)),
        other => panic!("unexpected {other:?}"),
    }
    match write_inert_fingerprint(flow) {
        MapCommand::InsertFingerprint { key, value, flags } => {
            assert_eq!((key.src_ip, value.window_size, flags), (5, 0, 0));
        }
        other => panic!("unexpected {other:?}"),
    }
}

#[test]
fn removing_an_absent_entry_is_no_error() {
    assert_eq!(settle(remove_deny_entry(1), MapOutcome::KeyMissing), Ok(()));
    assert_eq!(settle(remove_deny_entry(1), MapOutcome::Done), Ok(()));
    assert_eq!(
        settle(remove_deny_entry(1), MapOutcome::Failed),
        Err(EbpfSourceError::MapWrite(MapOutcome::Failed))
    );
    assert_eq!(
        settle(write_deny_entry(1), MapOutcome::KeyMissing),
        Err(EbpfSourceError::MapWrite(MapOutcome::KeyMissing))
    );
    assert_eq!(settle(clear_scan_flag(FlowKey::default()), MapOutcome::KeyMissing), Ok(()));
}
