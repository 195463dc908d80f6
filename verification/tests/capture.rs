use shifting_ghost::capture::dispatch::note_outcome;
use shifting_ghost::capture::vacuum::judge;
use shifting_ghost::capture::workers::worker_cpus;
use shifting_ghost::capture::{
    build_ring_handles, dispatch_channel, plan_workers, reporter_stops, try_dispatch, worker_count, AttachError,
    AttachStep, DetachError, DetachStep, DropReason, FrameSink, Metrics, NoWorkers,
    PerCpuRingTable, Reporter, SendOutcome, Vacuum, VacuumAction, BATCH_SIZE, DISPATCH_CAPACITY,
};
use shifting_ghost::common::{SignalFrame, NCPU};

fn frame(timestamp_ns: u64) -> SignalFrame {
    let mut f = SignalFrame::zeroed();
    f.timestamp_ns = timestamp_ns;
    f.flow_hash = timestamp_ns + 100;
    f
}

#[test]
fn counters_are_per_cpu() {
    let mut m = Metrics::new();
    m.record_ok(0);
    m.record_ok(0);
    m.record_ok(31);
    m.record_drop(5);
    m.record_channel_full(6);
    m.record_ok(NCPU);
    m.record_drop(usize::MAX);
    assert_eq!(m.frames_ok[0], 2);
    assert_eq!(m.frames_ok[31], 1);
    assert_eq!(m.frames_dropped[5], 1);
    assert_eq!(m.channel_full[6], 1);
    assert_eq!(m.totals(), (3, 1, 1));
}

#[test]
fn counters_wrap() {
    let mut m = Metrics::new();
    m.frames_ok[1] = u64::MAX;
    m.record_ok(1);
    assert_eq!(m.frames_ok[1], 0);
}

#[test]
fn drop_rate_exact_values() {
    assert_eq!(Metrics::drop_rate_bps(0, 0), 0);
    assert_eq!(Metrics::drop_rate_bps(0, 5), 10_000);
    assert_eq!(Metrics::drop_rate_bps(5, 0), 0);
    assert_eq!(Metrics::drop_rate_bps(2, 1), 3_333);
    assert_eq!(Metrics::drop_rate_bps(9_999, 1), 1);
    assert_eq!(Metrics::drop_rate_bps(u64::MAX, u64::MAX), 5_000);
    assert_eq!(Metrics::drop_rate_bps(0, u64::MAX), 10_000);
}

#[test]
fn reports_cover_the_time_since_the_last_one() {
    let mut m = Metrics::new();
    let mut r = Reporter::new();
    for _ in 0..7 {
        m.record_ok(2);
    }
    m.record_drop(2);
    m.record_channel_full(2);
    let first = r.report(&m);
    assert_eq!((first.frames, first.drops, first.channel_full), (7, 1, 1));
    assert_eq!((first.rate_percent, first.rate_hundredths), (12, 50));
    m.record_ok(3);
    let second = r.report(&m);
    assert_eq!((second.frames, second.drops, second.channel_full), (1, 0, 1));
    assert_eq!((second.rate_percent, second.rate_hundredths), (0, 0));
    let back = r.tick(0, 0, 0);
    assert_eq!((back.frames, back.drops), (0, 0));
}

#[test]
fn dispatch_channel_holds_four_batches() {
    assert_eq!(DISPATCH_CAPACITY, 1024);
    let (mut tx, rx) = dispatch_channel();
    let mut m = Metrics::new();
    for i in 0..DISPATCH_CAPACITY {
        assert!(try_dispatch(&mut tx, frame(i as u64), 4, &mut m));
    }
    assert!(!try_dispatch(&mut tx, frame(9_999), 4, &mut m));
    assert_eq!(m.channel_full[4], 1);
    for i in 0..DISPATCH_CAPACITY {
        let got = rx.recv().expect("frame");
        assert_eq!(got.to_bytes(), frame(i as u64).to_bytes());
    }
    assert!(rx.try_recv().is_err());
    drop(rx);
    assert!(!try_dispatch(&mut tx, frame(1), 4, &mut m));
    assert_eq!(m.channel_full[4], 1);
    assert_eq!(m.frames_ok[4], 0);
}

#[test]
fn outcomes_are_noted() {
    let mut m = Metrics::new();
    assert!(note_outcome(SendOutcome::Sent, 1, &mut m));
    assert!(!note_outcome(SendOutcome::Full(frame(1)), 1, &mut m));
    assert!(!note_outcome(SendOutcome::Disconnected(frame(1)), 1, &mut m));
    assert_eq!(m.totals(), (0, 0, 1));
}

#[test]
fn records_are_judged() {
    let raw = frame(50).to_bytes();
    assert_eq!(judge(&raw, 50).expect("kept").to_bytes(), raw);
    assert_eq!(judge(&raw, 51).expect_err("old"), DropReason::TimestampRegression);
    assert_eq!(judge(&raw[..63], 0).expect_err("short"), DropReason::SizeMismatch);
    assert_eq!(judge(&[0u8; 65], 0).expect_err("long"), DropReason::SizeMismatch);
}

#[test]
fn worker_round_keeps_order_and_counts() {
    let (mut tx, rx) = dispatch_channel();
    let mut m = Metrics::new();
    let mut worker = Vacuum::new(2);
    assert_eq!(worker.start_round(false), VacuumAction::Poll);
    let steps = [10u64, 10, 9, 30];
    for ts in steps {
        let (action, dropped) = worker.on_record(Some(&frame(ts).to_bytes()), &mut m);
        assert_eq!(action, VacuumAction::Poll);
        assert_eq!(dropped.is_some(), ts == 9);
    }
    let (action, dropped) = worker.on_record(Some(&[1, 2, 3]), &mut m);
    assert_eq!(action, VacuumAction::Poll);
    assert_eq!(dropped, Some(DropReason::SizeMismatch));
    assert_eq!(worker.on_record(None, &mut m), (VacuumAction::Dispatch, None));
    worker.dispatch_round(&mut tx, &mut m);
    assert_eq!(m.frames_ok[2], 3);
    assert_eq!(m.frames_dropped[2], 2);
    let times: Vec<u64> = rx.try_iter().map(|f| f.timestamp_ns).collect();
    assert_eq!(times, vec![10, 10, 30]);

    assert_eq!(worker.start_round(false), VacuumAction::Poll);
    let (_, dropped) = worker.on_record(Some(&frame(29).to_bytes()), &mut m);
    assert_eq!(dropped, Some(DropReason::TimestampRegression));
    assert_eq!(worker.start_round(true), VacuumAction::Exit);
}

#[test]
fn worker_round_is_bounded() {
    let (mut tx, rx) = dispatch_channel();
    let mut m = Metrics::new();
    let mut worker = Vacuum::new(0);
    worker.start_round(false);
    for i in 0..BATCH_SIZE {
        let (action, dropped) = worker.on_record(Some(&frame(i as u64).to_bytes()), &mut m);
        assert!(dropped.is_none());
        if i + 1 < BATCH_SIZE {
            assert_eq!(action, VacuumAction::Poll);
        } else {
            assert_eq!(action, VacuumAction::Dispatch);
        }
    }
    worker.dispatch_round(&mut tx, &mut m);
    assert_eq!(m.frames_ok[0], 256);
    assert_eq!(rx.len(), 256);
    worker.start_round(false);
    worker.on_record(None, &mut m);
    worker.dispatch_round(&mut tx, &mut m);
    assert_eq!(rx.len(), 256);
}

#[test]
fn worker_counts_refused_frames() {
    let (mut tx, rx) = dispatch_channel();
    let mut m = Metrics::new();
    let mut worker = Vacuum::new(1);
    for _ in 0..DISPATCH_CAPACITY {
        assert!(try_dispatch(&mut tx, frame(0), 1, &mut m));
    }
    worker.start_round(false);
    worker.on_record(Some(&frame(1).to_bytes()), &mut m);
    worker.on_record(None, &mut m);
    worker.dispatch_round(&mut tx, &mut m);
    assert_eq!((m.frames_ok[1], m.channel_full[1]), (0, 1));
    drop(rx);
    worker.start_round(false);
    worker.on_record(Some(&frame(2).to_bytes()), &mut m);
    worker.on_record(None, &mut m);
    worker.dispatch_round(&mut tx, &mut m);
    assert_eq!((m.frames_ok[1], m.channel_full[1]), (0, 1));
}

#[test]
fn ring_table_is_bounds_checked() {
    let mut slots: Box<[Option<u32>; NCPU]> = Box::new([None; NCPU]);
    slots[3] = Some(7);
    let mut table = PerCpuRingTable::new(slots);
    assert_eq!(table.populated_count(), 1);
    *table.get_mut(3).expect("ring") = 8;
    assert_eq!(table.get_mut(3), Some(&mut 8));
    assert!(table.get_mut(4).is_none());
    assert!(table.get_mut(NCPU).is_none());
}

#[test]
fn worker_count_from_the_command_line() {
    assert_eq!(worker_count(None), 32);
    assert_eq!(worker_count(Some("4")), 4);
    assert_eq!(worker_count(Some("0")), 0);
    assert_eq!(worker_count(Some("+7")), 7);
    assert_eq!(worker_count(Some("007")), 7);
    assert_eq!(worker_count(Some("33")), 32);
    assert_eq!(worker_count(Some("")), 32);
    assert_eq!(worker_count(Some("+")), 32);
    assert_eq!(worker_count(Some("-1")), 32);
    assert_eq!(worker_count(Some(" 4")), 32);
    assert_eq!(worker_count(Some("4x")), 32);
    assert_eq!(worker_count(Some("99999999999999999999999")), 32);
}

#[test]
fn workers_go_to_the_rings() {
    let handles = build_ring_handles("ring");
    assert_eq!(handles.len(), NCPU);
    assert_eq!(handles[0], Some("ring"));
    assert!(handles[1..].iter().all(|h| h.is_none()));
    assert_eq!(plan_workers(&handles, 32), Ok(vec![0]));
    assert_eq!(plan_workers(&handles, 0), Err(NoWorkers { requested: 0 }));
    let sparse = vec![None, Some(1), None, Some(3), Some(4)];
    assert_eq!(worker_cpus(&sparse, 4), vec![1, 3]);
    assert_eq!(worker_cpus(&sparse, 99), vec![1, 3, 4]);
    assert_eq!(plan_workers(&sparse, 1), Err(NoWorkers { requested: 1 }));
}

#[test]
fn signal_probe_comes_up_in_either_mode() {
    let native = AttachStep::FindObject
        .after(true)
        .after(true)
        .after(true)
        .after(false)
        .after(true)
        .after(true)
        .after(true);
    assert_eq!(native, AttachStep::AttachNative);
    assert_eq!(native.after(true), AttachStep::TakeRing);
    assert_eq!(native.after(false), AttachStep::AttachGeneric);
    assert_eq!(native.after(false).after(true), AttachStep::TakeRing);
    assert_eq!(AttachStep::TakeRing.after(true).after(true), AttachStep::Live);
    assert_eq!(AttachStep::Live.after(false), AttachStep::Live);
}

#[test]
fn signal_probe_failures_are_named() {
    let fails = [
        (AttachStep::FindObject, AttachError::ObjectMissing),
        (AttachStep::ReadObject, AttachError::ObjectUnreadable),
        (AttachStep::ParseObject, AttachError::ObjectRejected),
        (AttachStep::FindProgram, AttachError::ProgramMissing),
        (AttachStep::CheckProgram, AttachError::NotAnInterfaceProgram),
        (AttachStep::LoadProgram, AttachError::ProgramRejected),
        (AttachStep::AttachGeneric, AttachError::NotAttached),
        (AttachStep::TakeRing, AttachError::RingMissing),
        (AttachStep::OpenRing, AttachError::NotARing),
    ];
    for (step, error) in fails {
        assert_eq!(step.after(false), AttachStep::Failed(error));
    }
}

#[test]
fn signal_probe_comes_down() {
    let step = DetachStep::FindProgram;
    assert_eq!(step.after(true).after(true).after(true), DetachStep::Restored);
    assert_eq!(step.after(false), DetachStep::Failed(DetachError::ProgramMissing));
    assert_eq!(
        step.after(true).after(false),
        DetachStep::Failed(DetachError::NotAnInterfaceProgram)
    );
    assert_eq!(
        step.after(true).after(true).after(false),
        DetachStep::Failed(DetachError::NotDetached)
    );
}

#[test]
fn given_frames_reach_the_matching_receiver() {
    let (mut tx, rx) = dispatch_channel();
    let (_other_tx, other_rx) = dispatch_channel();
    assert!(matches!(tx.give(frame(5)), SendOutcome::Sent));
    assert_eq!(rx.recv().expect("frame").to_bytes(), frame(5).to_bytes());
    assert!(rx.try_recv().is_err());
    assert!(other_rx.try_recv().is_err());
    for _ in 0..DISPATCH_CAPACITY {
        tx.give(frame(1));
    }
    match tx.give(frame(7)) {
        SendOutcome::Full(back) => assert_eq!(back.to_bytes(), frame(7).to_bytes()),
        other => panic!("unexpected {other:?}"),
    }
    drop(rx);
    match tx.give(frame(6)) {
        SendOutcome::Disconnected(back) => assert_eq!(back.to_bytes(), frame(6).to_bytes()),
        other => panic!("unexpected {other:?}"),
    }
}

#[test]
fn every_kept_frame_is_given_once_and_counted() {
    let mut m = Metrics::new();
    let (mut tx, rx) = dispatch_channel();
    for _ in 0..DISPATCH_CAPACITY - 3 {
        tx.give(frame(0));
    }
    let mut worker = Vacuum::new(7);
    worker.start_round(false);
    for ts in [1u64, 5, 4, 5, 9] {
        worker.on_record(Some(&frame(ts).to_bytes()), &mut m);
    }
    worker.on_record(None, &mut m);
    worker.dispatch_round(&mut tx, &mut m);
    let got: Vec<Vec<u8>> = rx
        .try_iter()
        .skip(DISPATCH_CAPACITY - 3)
        .map(|f| f.to_bytes().to_vec())
        .collect();
    let expected: Vec<Vec<u8>> = [1u64, 5, 5]
        .iter()
        .map(|t| frame(*t).to_bytes().to_vec())
        .collect();
    assert_eq!(got, expected);
    assert_eq!((m.frames_ok[7], m.frames_dropped[7], m.channel_full[7]), (3, 1, 1));
    worker.start_round(false);
    worker.on_record(None, &mut m);
    worker.dispatch_round(&mut tx, &mut m);
    assert!(rx.try_recv().is_err());
}

#[test]
fn reporter_stops_when_told_or_alone() {
    assert!(!reporter_stops(false, false));
    assert!(reporter_stops(true, false));
    assert!(reporter_stops(false, true));
}
