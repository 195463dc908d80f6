//! A capture worker: drains its ring in rounds, validates what it drains and
//! dispatches the rest.
//!
//! A round is [`Vacuum::start_round`], then one [`Vacuum::on_record`] per poll
//! of the ring, then [`Vacuum::dispatch_round`]. The caller polls and does
//! what each answer asks for.

use vstd::prelude::*;
use crate::bytes;
use crate::common::layout;
use crate::common::signal_frame;
use crate::common::signal_frame::{SignalFrame, SIGNAL_FRAME_SIZE};
use super::batch;
use super::batch::{clear_batch, frames_in, new_batch, push_frame, Batch, BATCH_SIZE};
use super::dispatch;
use super::dispatch::try_dispatch;
use super::metrics;
use super::metrics::{Counts, Metrics};
use super::sink::{FrameSink, SendOutcome};

verus! {

/// What a worker does next.
#[derive(Clone, Copy, Debug, PartialEq, Eq, Structural)]
pub enum VacuumAction {
    /// Poll the ring for a record.
    Poll,
    /// Dispatch the batch, then start the next round.
    Dispatch,
    /// Leave the loop.
    Exit,
}

/// Why a record is not dispatched.
#[derive(Clone, Copy, Debug, PartialEq, Eq, Structural)]
pub enum DropReason {
    /// The record is not one frame long.
    SizeMismatch,
    /// The frame is older than the one before it.
    TimestampRegression,
}

/// The timestamp in a record.
pub open spec fn record_time(raw: Seq<u8>) -> nat {
    bytes::le_value(raw.subrange(8, 16))
}

/// What is wrong with a record, behind a frame of time `last_ts`; `None` if
/// nothing is.
pub open spec fn fault(raw: Seq<u8>, last_ts: u64) -> Option<DropReason> {
    if raw.len() != SIGNAL_FRAME_SIZE {
        Some(DropReason::SizeMismatch)
    } else if record_time(raw) < last_ts {
        Some(DropReason::TimestampRegression)
    } else {
        None
    }
}

/// The timestamps of `frames` never go back.
pub open spec fn in_time_order(frames: Seq<SignalFrame>) -> bool {
    forall|i: int, j: int|
        0 <= i <= j < frames.len() ==> #[trigger] frames[i].timestamp_ns
            <= #[trigger] frames[j].timestamp_ns
}

/// The time of the last record that a worker keeps of `records`; zero before
/// the first. A record that is not kept does not move it.
pub open spec fn last_time(records: Seq<Seq<u8>>) -> u64
    decreases records.len(),
{
    if records.len() == 0 {
        0
    } else {
        let before = last_time(records.drop_last());
        if fault(records.last(), before) is None {
            record_time(records.last()) as u64
        } else {
            before
        }
    }
}

/// The records that a worker keeps of those that it polls one after another.
pub open spec fn kept_records(records: Seq<Seq<u8>>) -> Seq<Seq<u8>>
    decreases records.len(),
{
    if records.len() == 0 {
        Seq::empty()
    } else {
        let before = kept_records(records.drop_last());
        if fault(records.last(), last_time(records.drop_last())) is None {
            before.push(records.last())
        } else {
            before
        }
    }
}

/// `frames` are those that `records` hold, one each, in order.
pub open spec fn are_read_from(frames: Seq<SignalFrame>, records: Seq<Seq<u8>>) -> bool {
    &&& frames.len() == records.len()
    &&& forall|i: int| 0 <= i < frames.len() ==> (#[trigger] frames[i]).read_from(records[i])
}

/// The counters after a dispatched frame's outcome.
pub open spec fn tallied_one(counts: Counts, cpu_id: int, outcome: SendOutcome) -> Counts {
    let counts = dispatch::noted(counts, cpu_id, outcome);
    if outcome is Sent {
        Counts { ok: metrics::bumped(counts.ok, cpu_id), ..counts }
    } else {
        counts
    }
}

/// The counters after the outcomes of a batch, in order.
pub open spec fn tallied(counts: Counts, cpu_id: int, outcomes: Seq<SendOutcome>) -> Counts
    decreases outcomes.len(),
{
    if outcomes.len() == 0 {
        counts
    } else {
        tallied_one(tallied(counts, cpu_id, outcomes.drop_last()), cpu_id, outcomes.last())
    }
}

/// Validates a record behind a frame of time `last_ts`.
pub fn judge(raw: &[u8], last_ts: u64) -> (frame: Result<SignalFrame, DropReason>)
    ensures
        match frame {
            Ok(frame) => fault(raw@, last_ts) is None && frame.read_from(raw@),
            Err(reason) => fault(raw@, last_ts) == Some(reason),
        },
{
    match SignalFrame::from_bytes(raw) {
        Some(frame) => if frame.timestamp_ns < last_ts {
            Err(DropReason::TimestampRegression)
        } else {
            Ok(frame)
        },
        None => Err(DropReason::SizeMismatch),
    }
}

/// The frames of `given`, without what became of them.
pub open spec fn frames_given(given: Seq<(SignalFrame, SendOutcome)>) -> Seq<SignalFrame> {
    Seq::new(given.len(), |i: int| given[i].0)
}

/// Each of `frames` with its outcome.
pub open spec fn paired(frames: Seq<SignalFrame>, outcomes: Seq<SendOutcome>) -> Seq<
    (SignalFrame, SendOutcome),
> {
    Seq::new(frames.len(), |i: int| (frames[i], outcomes[i]))
}

/// A worker's state. Besides what it runs on, it remembers as ghost state the
/// records it has polled since it began.
pub struct Vacuum {
    cpu_id: usize,
    last_ts_ns: u64,
    polled: usize,
    batch: Batch,
    history: Ghost<Seq<Seq<u8>>>,
}

impl Vacuum {
    /// The CPU whose ring the worker drains.
    pub closed spec fn cpu(self) -> usize {
        self.cpu_id
    }

    /// The time of the last valid frame.
    pub closed spec fn last_ts(self) -> u64 {
        self.last_ts_ns
    }

    /// Records polled in this round.
    pub closed spec fn polled(self) -> nat {
        self.polled as nat
    }

    /// The frames that wait for dispatch, oldest first.
    pub closed spec fn frames(self) -> Seq<SignalFrame> {
        batch::batch_frames(self.batch)
    }

    /// Every record polled so far, oldest first.
    pub closed spec fn records(self) -> Seq<Seq<u8>> {
        self.history@
    }

    /// A round polls at most one batch of records, and the worker knows the
    /// time of the last one it kept.
    pub open spec fn wf(self) -> bool {
        &&& self.frames().len() <= self.polled() <= BATCH_SIZE
        &&& self.last_ts() == last_time(self.records())
    }

    /// The worker is in step with a sink that was given `given`: those frames,
    /// followed by the ones that wait, are the records kept so far, in order,
    /// and nothing else.
    pub open spec fn in_step(self, given: Seq<(SignalFrame, SendOutcome)>) -> bool {
        are_read_from(frames_given(given) + self.frames(), kept_records(self.records()))
    }

    /// A worker for `cpu_id` that has seen nothing.
    pub fn new(cpu_id: usize) -> (worker: Vacuum)
        ensures
            worker.wf(),
            worker.cpu() == cpu_id,
            worker.last_ts() == 0,
            worker.polled() == 0,
            worker.frames().len() == 0,
            worker.records().len() == 0,
            worker.in_step(Seq::empty()),
    {
        Vacuum {
            cpu_id,
            last_ts_ns: 0,
            polled: 0,
            batch: new_batch(),
            history: Ghost(Seq::empty()),
        }
    }

    /// Starts a round, unless the engine shuts down. The last round's frames
    /// have been dispatched.
    pub fn start_round(&mut self, shutdown: bool) -> (action: VacuumAction)
        requires
            old(self).wf(),
            !shutdown ==> old(self).frames().len() == 0,
        ensures
            final(self).wf(),
            final(self).cpu() == old(self).cpu(),
            final(self).last_ts() == old(self).last_ts(),
            final(self).records() == old(self).records(),
            final(self).frames() == old(self).frames(),
            shutdown ==> action == VacuumAction::Exit && *final(self) == *old(self),
            !shutdown ==> action == VacuumAction::Poll && final(self).polled() == 0,
    {
        if shutdown {
            return VacuumAction::Exit;
        }
        self.polled = 0;
        VacuumAction::Poll
    }

    /// Takes the answer to a poll. A valid record joins the batch, an invalid
    /// one is counted and its fault returned; an empty ring ends the round, and
    /// so does the last record of a full one.
    pub fn on_record(&mut self, record: Option<&[u8]>, metrics: &mut Metrics) -> (next: (
        VacuumAction,
        Option<DropReason>,
    ))
        requires
            old(self).wf(),
            old(self).polled() < BATCH_SIZE,
        ensures
            final(self).wf(),
            final(self).cpu() == old(self).cpu(),
            forall|given: Seq<(SignalFrame, SendOutcome)>|
                old(self).in_step(given) ==> #[trigger] final(self).in_step(given),
            match record {
                None => {
                    &&& next == (VacuumAction::Dispatch, None::<DropReason>)
                    &&& *final(self) == *old(self)
                    &&& final(metrics)@ == old(metrics)@
                },
                Some(raw) => {
                    &&& final(self).records() == old(self).records().push(raw@)
                    &&& final(self).polled() == old(self).polled() + 1
                    &&& next.0 == if final(self).polled() < BATCH_SIZE {
                        VacuumAction::Poll
                    } else {
                        VacuumAction::Dispatch
                    }
                    &&& next.1 == fault(raw@, old(self).last_ts())
                    &&& if next.1 is None {
                        &&& final(self).last_ts() == record_time(raw@)
                        &&& final(self).frames().len() == old(self).frames().len() + 1
                        &&& final(self).frames().drop_last() == old(self).frames()
                        &&& final(self).frames().last().read_from(raw@)
                        &&& final(metrics)@ == old(metrics)@
                    } else {
                        &&& final(self).last_ts() == old(self).last_ts()
                        &&& final(self).frames() == old(self).frames()
                        &&& final(metrics)@ == (Counts {
                            dropped: metrics::bumped(old(metrics)@.dropped, old(self).cpu() as int),
                            ..old(metrics)@
                        })
                    }
                },
            },
    {
        let raw = match record {
            Some(raw) => raw,
            None => return (VacuumAction::Dispatch, None),
        };
        self.polled = self.polled + 1;
        let ghost before = self.history@;
        proof {
            self.history@ = before.push(raw@);
            assert(self.history@.drop_last() =~= before);
        }
        let dropped: Option<DropReason> = match judge(raw, self.last_ts_ns) {
            Ok(frame) => {
                self.last_ts_ns = frame.timestamp_ns;
                let _pushed = push_frame(&mut self.batch, frame);
                proof {
                    assert(self.frames().drop_last() =~= old(self).frames());
                    assert forall|given: Seq<(SignalFrame, SendOutcome)>| old(self).in_step(
                        given,
                    ) implies #[trigger] self.in_step(given) by {
                        assert(frames_given(given) + self.frames() =~= (frames_given(given) + old(
                            self,
                        ).frames()).push(frame));
                    }
                }
                None
            },
            Err(reason) => {
                metrics.record_drop(self.cpu_id);
                Some(reason)
            },
        };
        let action = if self.polled < BATCH_SIZE {
            VacuumAction::Poll
        } else {
            VacuumAction::Dispatch
        };
        (action, dropped)
    }

    /// Gives every frame of the batch to the sink, each once and in order, and
    /// nothing else, and empties the batch. A sent frame counts as dispatched,
    /// one that found the channel full as that; one that found no receiver is
    /// not counted.
    pub fn dispatch_round<S: FrameSink>(&mut self, tx: &mut S, metrics: &mut Metrics)
        requires
            old(self).wf(),
        ensures
            final(self).wf(),
            final(self).cpu() == old(self).cpu(),
            final(self).last_ts() == old(self).last_ts(),
            final(self).polled() == old(self).polled(),
            final(self).records() == old(self).records(),
            final(self).frames().len() == 0,
            final(tx).route() == old(tx).route(),
            forall|f: SignalFrame, o: SendOutcome| #[trigger]
                final(tx).answers(f, o) == old(tx).answers(f, o),
            exists|outcomes: Seq<SendOutcome>|
                {
                    &&& outcomes.len() == old(self).frames().len()
                    &&& final(tx).given() == old(tx).given() + paired(
                        old(self).frames(),
                        outcomes,
                    )
                    &&& forall|i: int|
                        0 <= i < outcomes.len() ==> old(tx).answers(
                            old(self).frames()[i],
                            #[trigger] outcomes[i],
                        )
                    &&& final(metrics)@ == #[trigger] tallied(
                        old(metrics)@,
                        old(self).cpu() as int,
                        outcomes,
                    )
                },
            old(self).in_step(old(tx).given()) ==> final(self).in_step(final(tx).given()),
    {
        let ghost mut outcomes: Seq<SendOutcome> = Seq::empty();
        let frames = frames_in(&self.batch);
        let n: usize = frames.len();
        let mut i: usize = 0;
        assert(paired(frames@.take(0), outcomes) =~= Seq::empty());
        assert(tx.given() =~= old(tx).given() + paired(frames@.take(0), outcomes));
        while i < n
            invariant
                i <= n,
                n == frames@.len(),
                frames@ == old(self).frames(),
                self.cpu_id == old(self).cpu(),
                outcomes.len() == i,
                tx.route() == old(tx).route(),
                forall|f: SignalFrame, o: SendOutcome| #[trigger]
                    tx.answers(f, o) == old(tx).answers(f, o),
                forall|k: int|
                    0 <= k < i ==> old(tx).answers(frames@[k], #[trigger] outcomes[k]),
                tx.given() == old(tx).given() + paired(frames@.take(i as int), outcomes),
                metrics@ == tallied(old(metrics)@, self.cpu_id as int, outcomes),
            decreases n - i,
        {
            let ghost before = metrics@;
            let ghost given = tx.given();
            let sent = try_dispatch(tx, frames[i], self.cpu_id, metrics);
            proof {
                let outcome = choose|outcome: SendOutcome|
                    {
                        &&& tx.given() == #[trigger] given.push((frames@[i as int], outcome))
                        &&& old(tx).answers(frames@[i as int], outcome)
                        &&& sent == (outcome is Sent)
                        &&& metrics@ == dispatch::noted(before, self.cpu_id as int, outcome)
                    };
                let longer = outcomes.push(outcome);
                assert(longer.drop_last() =~= outcomes);
                assert(tx.given() =~= old(tx).given() + paired(frames@.take(i + 1), longer));
                outcomes = longer;
            }
            if sent {
                metrics.record_ok(self.cpu_id);
            }
            i = i + 1;
        }
        assert(frames@.take(n as int) =~= frames@);
        clear_batch(&mut self.batch);
        proof {
            assert(frames_given(tx.given()) + self.frames() =~= frames_given(old(tx).given()) + old(
                self,
            ).frames());
        }
    }
}

/// What a worker keeps is whole frames, and their times never go back, over
/// however many rounds.
pub proof fn kept_records_are_in_time_order(records: Seq<Seq<u8>>)
    ensures
        forall|i: int|
            0 <= i < kept_records(records).len() ==> {
                &&& (#[trigger] kept_records(records)[i]).len() == SIGNAL_FRAME_SIZE
                &&& record_time(kept_records(records)[i]) <= last_time(records)
            },
        forall|i: int, j: int|
            0 <= i <= j < kept_records(records).len() ==> record_time(
                #[trigger] kept_records(records)[i],
            ) <= record_time(#[trigger] kept_records(records)[j]),
    decreases records.len(),
{
    if records.len() > 0 {
        kept_records_are_in_time_order(records.drop_last());
        let last = records.last();
        if fault(last, last_time(records.drop_last())) is None {
            bytes::byte_ranges();
            bytes::le_read_then_write(last.subrange(8, 16));
            assert(kept_records(records) == kept_records(records.drop_last()).push(last));
        } else {
            assert(kept_records(records) == kept_records(records.drop_last()));
        }
    }
}

/// A worker gives its sink exactly the records that it keeps, bit for bit,
/// each once and in ring order, with times that never go back: what the sink
/// was given and what waits, written out, are the kept records.
pub proof fn worker_offers_the_kept_records(
    worker: Vacuum,
    given: Seq<(SignalFrame, SendOutcome)>,
)
    requires
        worker.in_step(given),
    ensures
        ({
            let frames = frames_given(given) + worker.frames();
            &&& frames.len() == kept_records(worker.records()).len()
            &&& forall|i: int|
                0 <= i < frames.len() ==> (#[trigger] frames[i]).image() == kept_records(
                    worker.records(),
                )[i]
            &&& in_time_order(frames)
        }),
{
    let frames = frames_given(given) + worker.frames();
    let kept = kept_records(worker.records());
    kept_records_are_in_time_order(worker.records());
    assert forall|i: int| 0 <= i < frames.len() implies (#[trigger] frames[i]).image()
        == kept[i] by {
        assert(kept[i].len() == SIGNAL_FRAME_SIZE);
        signal_frame::frame_image_is_what_was_read(frames[i], kept[i]);
    }
    assert forall|i: int, j: int| 0 <= i <= j < frames.len() implies (
    #[trigger] frames[i]).timestamp_ns <= (#[trigger] frames[j]).timestamp_ns by {
        assert(record_time(kept[i]) <= record_time(kept[j]));
        assert(frames[i].read_from(kept[i]) && frames[j].read_from(kept[j]));
    }
}

/// A frame that a probe wrote is kept, and kept as it was written, unless it
/// is older than the one before it.
pub proof fn probe_frames_are_kept(written: SignalFrame, read: SignalFrame, last_ts: u64)
    ensures
        fault(written.image(), last_ts) is None <==> written.timestamp_ns >= last_ts,
        fault(written.image(), last_ts) != Some(DropReason::SizeMismatch),
        read.read_from(written.image()) ==> read == written,
{
    signal_frame::image_holds_the_frame(written);
    if read.read_from(written.image()) {
        signal_frame::frame_survives_the_ring(written, read);
    }
}

/// How many frames were sent.
pub open spec fn sent_among(outcomes: Seq<SendOutcome>) -> nat
    decreases outcomes.len(),
{
    if outcomes.len() == 0 {
        0
    } else {
        sent_among(outcomes.drop_last()) + if outcomes.last() is Sent {
            1nat
        } else {
            0nat
        }
    }
}

/// How many frames found the channel full.
pub open spec fn refused_among(outcomes: Seq<SendOutcome>) -> nat
    decreases outcomes.len(),
{
    if outcomes.len() == 0 {
        0
    } else {
        refused_among(outcomes.drop_last()) + if outcomes.last() is Full {
            1nat
        } else {
            0nat
        }
    }
}

/// A receiver was there for every frame.
pub open spec fn none_disconnected(outcomes: Seq<SendOutcome>) -> bool {
    forall|i: int| 0 <= i < outcomes.len() ==> !((#[trigger] outcomes[i]) is Disconnected)
}

/// A round counts every sent frame once as dispatched and every refused frame
/// once as refused, on its own CPU and nowhere else, as long as the counters
/// are not at their end.
pub proof fn round_counts_each_frame_once(counts: Counts, cpu_id: int, outcomes: Seq<SendOutcome>)
    requires
        0 <= cpu_id < counts.ok.len(),
        cpu_id < counts.full.len(),
        counts.ok[cpu_id] + outcomes.len() <= u64::MAX,
        counts.full[cpu_id] + outcomes.len() <= u64::MAX,
    ensures
        ({
            let after = tallied(counts, cpu_id, outcomes);
            &&& after.ok == counts.ok.update(
                cpu_id,
                (counts.ok[cpu_id] + sent_among(outcomes)) as u64,
            )
            &&& after.full == counts.full.update(
                cpu_id,
                (counts.full[cpu_id] + refused_among(outcomes)) as u64,
            )
            &&& after.dropped == counts.dropped
        }),
        sent_among(outcomes) + refused_among(outcomes) <= outcomes.len(),
        none_disconnected(outcomes) ==> sent_among(outcomes) + refused_among(outcomes)
            == outcomes.len(),
    decreases outcomes.len(),
{
    if outcomes.len() > 0 {
        round_counts_each_frame_once(counts, cpu_id, outcomes.drop_last());
        assert(!(outcomes[outcomes.len() - 1] is Disconnected) || !none_disconnected(outcomes));
        assert(none_disconnected(outcomes) ==> none_disconnected(outcomes.drop_last()));
    }
    let after = tallied(counts, cpu_id, outcomes);
    assert(after.ok =~= counts.ok.update(
        cpu_id,
        (counts.ok[cpu_id] + sent_among(outcomes)) as u64,
    ));
    assert(after.full =~= counts.full.update(
        cpu_id,
        (counts.full[cpu_id] + refused_among(outcomes)) as u64,
    ));
}

/// What happens to a worker: it polls a record, or it learns what became of a
/// frame that it offered.
pub enum Event {
    Polled(Seq<u8>),
    Offered(SendOutcome),
}

/// The records polled in a run, in order.
pub open spec fn polled_in(run: Seq<Event>) -> Seq<Seq<u8>>
    decreases run.len(),
{
    if run.len() == 0 {
        Seq::empty()
    } else {
        match run.last() {
            Event::Polled(raw) => polled_in(run.drop_last()).push(raw),
            Event::Offered(_) => polled_in(run.drop_last()),
        }
    }
}

/// The outcomes learnt in a run, in order.
pub open spec fn offered_in(run: Seq<Event>) -> Seq<SendOutcome>
    decreases run.len(),
{
    if run.len() == 0 {
        Seq::empty()
    } else {
        match run.last() {
            Event::Polled(_) => offered_in(run.drop_last()),
            Event::Offered(outcome) => offered_in(run.drop_last()).push(outcome),
        }
    }
}

/// The counters after a run: each record that is not kept is counted as
/// dropped when it is polled, and each outcome as [`tallied_one`] says.
pub open spec fn counted_run(counts: Counts, cpu_id: int, run: Seq<Event>) -> Counts
    decreases run.len(),
{
    if run.len() == 0 {
        counts
    } else {
        let before = counted_run(counts, cpu_id, run.drop_last());
        match run.last() {
            Event::Polled(raw) => if fault(raw, last_time(polled_in(run.drop_last()))) is Some {
                Counts { dropped: metrics::bumped(before.dropped, cpu_id), ..before }
            } else {
                before
            },
            Event::Offered(outcome) => tallied_one(before, cpu_id, outcome),
        }
    }
}

/// Dispatching a batch carries a run on by its outcomes: the counters that
/// [`tallied`] gives are those of the longer run.
pub proof fn round_carries_the_run_on(
    counts: Counts,
    cpu_id: int,
    run: Seq<Event>,
    outcomes: Seq<SendOutcome>,
)
    ensures
        counted_run(
            counts,
            cpu_id,
            run + Seq::new(outcomes.len(), |i: int| Event::Offered(outcomes[i])),
        ) == tallied(counted_run(counts, cpu_id, run), cpu_id, outcomes),
    decreases outcomes.len(),
{
    let longer = run + Seq::new(outcomes.len(), |i: int| Event::Offered(outcomes[i]));
    if outcomes.len() == 0 {
        assert(longer =~= run);
    } else {
        let init = outcomes.drop_last();
        round_carries_the_run_on(counts, cpu_id, run, init);
        assert(longer.drop_last() =~= run + Seq::new(
            init.len(),
            |i: int| Event::Offered(init[i]),
        ));
        assert(longer.last() == Event::Offered(outcomes.last()));
    }
}

proof fn run_fills_its_own_counters(counts: Counts, cpu_id: int, run: Seq<Event>)
    requires
        0 <= cpu_id < counts.ok.len(),
        cpu_id < counts.dropped.len(),
        cpu_id < counts.full.len(),
        counts.ok[cpu_id] + run.len() <= u64::MAX,
        counts.dropped[cpu_id] + run.len() <= u64::MAX,
        counts.full[cpu_id] + run.len() <= u64::MAX,
    ensures
        ({
            let after = counted_run(counts, cpu_id, run);
            let records = polled_in(run);
            let lost = (records.len() - kept_records(records).len()) as nat;
            &&& after.ok == counts.ok.update(
                cpu_id,
                (counts.ok[cpu_id] + sent_among(offered_in(run))) as u64,
            )
            &&& after.full == counts.full.update(
                cpu_id,
                (counts.full[cpu_id] + refused_among(offered_in(run))) as u64,
            )
            &&& after.dropped == counts.dropped.update(
                cpu_id,
                (counts.dropped[cpu_id] + lost) as u64,
            )
            &&& kept_records(records).len() <= records.len() <= run.len()
            &&& sent_among(offered_in(run)) + refused_among(offered_in(run)) <= offered_in(
                run,
            ).len() <= run.len()
            &&& none_disconnected(offered_in(run)) ==> sent_among(offered_in(run)) + refused_among(
                offered_in(run),
            ) == offered_in(run).len()
        }),
    decreases run.len(),
{
    if run.len() > 0 {
        let init = run.drop_last();
        run_fills_its_own_counters(counts, cpu_id, init);
        match run.last() {
            Event::Polled(raw) => {
                assert(polled_in(run).drop_last() =~= polled_in(init));
            },
            Event::Offered(outcome) => {
                let outcomes = offered_in(run);
                assert(outcomes.drop_last() =~= offered_in(init));
                assert(!(outcomes[outcomes.len() - 1] is Disconnected) || !none_disconnected(
                    outcomes,
                ));
                assert(none_disconnected(outcomes) ==> none_disconnected(outcomes.drop_last()));
            },
        }
    }
    let after = counted_run(counts, cpu_id, run);
    let records = polled_in(run);
    assert(after.ok =~= counts.ok.update(
        cpu_id,
        (counts.ok[cpu_id] + sent_among(offered_in(run))) as u64,
    ));
    assert(after.full =~= counts.full.update(
        cpu_id,
        (counts.full[cpu_id] + refused_among(offered_in(run))) as u64,
    ));
    assert(after.dropped =~= counts.dropped.update(
        cpu_id,
        (counts.dropped[cpu_id] + (records.len() - kept_records(records).len())) as u64,
    ));
}

/// Over a run in which every kept frame was offered and met a receiver, each
/// polled record is counted exactly once, on the worker's own CPU: as dropped
/// if it was not kept, as refused if the channel was full, and as dispatched
/// otherwise. No other counter changes. The counters are not at their end.
pub proof fn every_record_is_counted_once(counts: Counts, cpu_id: int, run: Seq<Event>)
    requires
        0 <= cpu_id < counts.ok.len(),
        cpu_id < counts.dropped.len(),
        cpu_id < counts.full.len(),
        counts.ok[cpu_id] + run.len() <= u64::MAX,
        counts.dropped[cpu_id] + run.len() <= u64::MAX,
        counts.full[cpu_id] + run.len() <= u64::MAX,
        offered_in(run).len() == kept_records(polled_in(run)).len(),
        none_disconnected(offered_in(run)),
    ensures
        ({
            let after = counted_run(counts, cpu_id, run);
            &&& (after.ok[cpu_id] - counts.ok[cpu_id]) + (after.dropped[cpu_id]
                - counts.dropped[cpu_id]) + (after.full[cpu_id] - counts.full[cpu_id])
                == polled_in(run).len()
            &&& after.dropped[cpu_id] - counts.dropped[cpu_id] == polled_in(run).len()
                - kept_records(polled_in(run)).len()
            &&& after.ok[cpu_id] - counts.ok[cpu_id] == sent_among(offered_in(run))
            &&& after.full[cpu_id] - counts.full[cpu_id] == refused_among(offered_in(run))
            &&& after.ok == counts.ok.update(cpu_id, after.ok[cpu_id])
            &&& after.dropped == counts.dropped.update(cpu_id, after.dropped[cpu_id])
            &&& after.full == counts.full.update(cpu_id, after.full[cpu_id])
        }),
{
    run_fills_its_own_counters(counts, cpu_id, run);
}

/// The time of a record, spelled out: the bytes 8 to 15, least significant
/// first.
pub open spec fn spelled_time(raw: Seq<u8>) -> int {
    raw[8] + 0x100 * raw[9] + 0x1_0000 * raw[10] + 0x100_0000 * raw[11] + 0x1_0000_0000 * raw[12]
        + 0x100_0000_0000 * raw[13] + 0x1_0000_0000_0000 * raw[14] + 0x100_0000_0000_0000 * raw[15]
}

/// A record is valid exactly if it is 64 bytes long and its time is not before
/// that of the frame before it; equal times are in order. The frame is then
/// the one that the record's bytes hold. A record of another length is at
/// fault for its length, whatever its time.
pub proof fn records_are_judged_by_length_and_time(
    raw: &[u8],
    last_ts: u64,
    judged: Result<SignalFrame, DropReason>,
    read: Option<SignalFrame>,
)
    requires
        call_ensures(judge, (raw, last_ts), judged),
        call_ensures(SignalFrame::from_bytes, (raw,), read),
    ensures
        judged is Ok <==> raw@.len() == 64 && spelled_time(raw@) >= last_ts,
        judged == Err::<SignalFrame, _>(DropReason::SizeMismatch) <==> raw@.len() != 64,
        judged == Err::<SignalFrame, _>(DropReason::TimestampRegression) <==> raw@.len() == 64
            && spelled_time(raw@) < last_ts,
        judged matches Ok(frame) ==> read == Some(frame) && frame.timestamp_ns == spelled_time(raw@),
{
    if raw@.len() == 64 {
        bytes::record_order_8(raw@, 8);
        if judged is Ok {
            let one = judged->Ok_0;
            let other = read->0;
            assert(one.l3_hdr =~= other.l3_hdr);
            assert(one._pad =~= other._pad);
            layout::cache_line_carries_nothing(one.line, other.line);
        }
    }
}

/// What one more record does to what a worker keeps: the record is kept
/// exactly if it is 64 bytes long and its time is not before that of the
/// record kept last, if there is one; nothing that was kept before is lost.
pub proof fn one_more_record_is_kept_iff(records: Seq<Seq<u8>>, raw: Seq<u8>)
    ensures
        ({
            let before = kept_records(records);
            let after = kept_records(records.push(raw));
            let in_order = before.len() > 0 ==> spelled_time(before.last()) <= spelled_time(raw);
            after == if raw.len() == 64 && in_order {
                before.push(raw)
            } else {
                before
            }
        }),
{
    last_time_is_that_of_the_last_kept(records);
    assert(records.push(raw).drop_last() =~= records);
    if raw.len() == 64 {
        bytes::record_order_8(raw, 8);
    }
}

proof fn last_time_is_that_of_the_last_kept(records: Seq<Seq<u8>>)
    ensures
        kept_records(records).len() == 0 ==> last_time(records) == 0,
        kept_records(records).len() > 0 ==> {
            &&& kept_records(records).last().len() == 64
            &&& last_time(records) == spelled_time(kept_records(records).last())
        },
    decreases records.len(),
{
    if records.len() > 0 {
        let last = records.last();
        last_time_is_that_of_the_last_kept(records.drop_last());
        if fault(last, last_time(records.drop_last())) is None {
            bytes::record_order_8(last, 8);
            assert(kept_records(records).last() == last);
        } else {
            assert(kept_records(records) == kept_records(records.drop_last()));
        }
    }
}

/// What a worker does with a polled record. It polls on until the ring is
/// empty or it has polled 256 records in the round. A record that is 64 bytes
/// long and not older than the last valid one joins the batch behind the
/// others, and its time becomes the last; any other is counted as dropped,
/// once and on the worker's own CPU, and changes nothing else.
pub proof fn polled_records_join_or_count(
    worker: &mut Vacuum,
    record: Option<&[u8]>,
    metrics: &mut Metrics,
    next: (VacuumAction, Option<DropReason>),
    i: int,
)
    requires
        call_ensures(Vacuum::on_record, (worker, record, metrics), next),
        0 <= i < 32,
    ensures
        final(worker).cpu() == old(worker).cpu(),
        final(metrics).frames_ok@[i] == old(metrics).frames_ok@[i],
        final(metrics).channel_full@[i] == old(metrics).channel_full@[i],
        match record {
            None => {
                &&& next.0 == VacuumAction::Dispatch
                &&& next.1 is None
                &&& *final(worker) == *old(worker)
                &&& final(metrics).frames_dropped@[i] == old(metrics).frames_dropped@[i]
            },
            Some(raw) => {
                let valid = raw@.len() == 64 && spelled_time(raw@) >= old(worker).last_ts();
                &&& next.0 == if old(worker).polled() + 1 < 256 {
                    VacuumAction::Poll
                } else {
                    VacuumAction::Dispatch
                }
                &&& final(worker).polled() == old(worker).polled() + 1
                &&& final(worker).records() == old(worker).records().push(raw@)
                &&& next.1 is None <==> valid
                &&& next.1 == Some(DropReason::SizeMismatch) <==> raw@.len() != 64
                &&& valid ==> {
                    &&& final(worker).last_ts() == spelled_time(raw@)
                    &&& final(worker).frames().drop_last() == old(worker).frames()
                    &&& final(worker).frames().len() == old(worker).frames().len() + 1
                    &&& final(worker).frames().last().timestamp_ns == spelled_time(raw@)
                    &&& final(worker).frames().last().image() == raw@
                }
                &&& !valid ==> {
                    &&& final(worker).last_ts() == old(worker).last_ts()
                    &&& final(worker).frames() == old(worker).frames()
                }
                &&& final(metrics).frames_dropped@[i] == metrics::one_up(
                    old(metrics).frames_dropped@[i],
                    !valid && i == old(worker).cpu(),
                )
            },
        },
{
    if record is Some {
        let raw = record->0;
        if raw@.len() == 64 {
            bytes::record_order_8(raw@, 8);
            if next.1 is None {
                signal_frame::frame_image_is_what_was_read(final(worker).frames().last(), raw@);
            }
        }
    }
}

/// A round begins, unless the engine shuts down, with nothing polled and with
/// everything else as the last round left it.
pub proof fn rounds_begin_with_nothing_polled(
    worker: &mut Vacuum,
    shutdown: bool,
    action: VacuumAction,
)
    requires
        call_ensures(Vacuum::start_round, (worker, shutdown), action),
    ensures
        action == if shutdown {
            VacuumAction::Exit
        } else {
            VacuumAction::Poll
        },
        !shutdown ==> final(worker).polled() == 0,
        shutdown ==> *final(worker) == *old(worker),
        final(worker).cpu() == old(worker).cpu(),
        final(worker).last_ts() == old(worker).last_ts(),
        final(worker).frames() == old(worker).frames(),
        final(worker).records() == old(worker).records(),
{
}

/// A round's dispatch gives the sink every frame that waits, in order and each
/// once, and nothing else, and leaves none waiting. On the worker's own CPU,
/// the frames that the sink took count as dispatched and those that found the
/// channel full as that; no counter of another CPU moves, and none of dropped
/// records.
pub proof fn rounds_dispatch_what_waits<S: FrameSink>(
    worker: &mut Vacuum,
    tx: &mut S,
    metrics: &mut Metrics,
    outcomes: Seq<SendOutcome>,
    i: int,
)
    requires
        old(worker).cpu() < 32,
        old(metrics).frames_ok@[old(worker).cpu() as int] + old(worker).frames().len() <= u64::MAX,
        old(metrics).channel_full@[old(worker).cpu() as int] + old(worker).frames().len()
            <= u64::MAX,
        call_ensures(Vacuum::dispatch_round::<S>, (worker, tx, metrics), ()),
        outcomes == Seq::new(
            old(worker).frames().len(),
            |k: int| final(tx).given()[old(tx).given().len() + k].1,
        ),
        0 <= i < 32,
    ensures
        final(worker).frames().len() == 0,
        final(worker).cpu() == old(worker).cpu(),
        final(worker).last_ts() == old(worker).last_ts(),
        final(worker).records() == old(worker).records(),
        frames_given(final(tx).given()) == frames_given(old(tx).given()) + old(worker).frames(),
        final(metrics).frames_dropped@[i] == old(metrics).frames_dropped@[i],
        final(metrics).frames_ok@[i] == old(metrics).frames_ok@[i] + if i == old(worker).cpu() {
            sent_among(outcomes) as int
        } else {
            0
        },
        final(metrics).channel_full@[i] == old(metrics).channel_full@[i] + if i == old(
            worker,
        ).cpu() {
            refused_among(outcomes) as int
        } else {
            0
        },
        none_disconnected(outcomes) ==> sent_among(outcomes) + refused_among(outcomes)
            == old(worker).frames().len(),
{
    let cpu = old(worker).cpu() as int;
    let found = choose|found: Seq<SendOutcome>|
        {
            &&& found.len() == old(worker).frames().len()
            &&& final(tx).given() == old(tx).given() + paired(old(worker).frames(), found)
            &&& forall|i: int|
                0 <= i < found.len() ==> old(tx).answers(
                    old(worker).frames()[i],
                    #[trigger] found[i],
                )
            &&& final(metrics)@ == #[trigger] tallied(old(metrics)@, cpu, found)
        };
    assert(found =~= outcomes);
    assert(frames_given(final(tx).given()) =~= frames_given(old(tx).given()) + old(
        worker,
    ).frames());
    round_counts_each_frame_once(old(metrics)@, cpu, outcomes);
}

/// A fresh worker keeps the first record that is 64 bytes long, whatever its
/// time, and nothing waits before it.
pub proof fn fresh_workers_keep_the_first_frame(
    cpu_id: usize,
    fresh: Vacuum,
    worker: &mut Vacuum,
    raw: &[u8],
    metrics: &mut Metrics,
    next: (VacuumAction, Option<DropReason>),
)
    requires
        call_ensures(Vacuum::new, (cpu_id,), fresh),
        *old(worker) == fresh,
        call_ensures(Vacuum::on_record, (worker, Some(raw), metrics), next),
    ensures
        fresh.cpu() == cpu_id,
        next.1 is None <==> raw@.len() == 64,
        final(worker).frames().len() == if raw@.len() == 64 {
            1nat
        } else {
            0nat
        },
{
}

} // verus!
