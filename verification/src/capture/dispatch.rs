//! Dispatching frames to the arena's consumers.

use vstd::prelude::*;
use crate::common::signal_frame::SignalFrame;
use super::batch::BATCH_SIZE;
use super::metrics;
use super::metrics::{Counts, Metrics};
use super::sink;
use super::sink::{open_channel, DispatchReceiver, DispatchSender, FrameSink, SendOutcome};

verus! {

/// Frames that the dispatch channel holds: four batches.
pub const DISPATCH_CAPACITY: usize = BATCH_SIZE * 4;

/// The two ends of a fresh dispatch channel.
pub fn dispatch_channel() -> (ends: (DispatchSender, DispatchReceiver))
    ensures
        sink::sender_capacity(ends.0.end()) == Some(DISPATCH_CAPACITY as nat),
        sink::receiver_capacity(ends.1) == Some(DISPATCH_CAPACITY as nat),
        sink::receiver_channel(ends.1) == ends.0.route(),
        ends.0.given() == Seq::<(SignalFrame, SendOutcome)>::empty(),
{
    open_channel(DISPATCH_CAPACITY)
}

/// The counters after a frame's outcome on `cpu_id` has been noted: only a
/// full channel counts.
pub open spec fn noted(counts: Counts, cpu_id: int, outcome: SendOutcome) -> Counts {
    if outcome is Full {
        Counts { full: metrics::bumped(counts.full, cpu_id), ..counts }
    } else {
        counts
    }
}

/// Notes a frame's outcome. `true` if the frame was sent.
pub fn note_outcome(outcome: SendOutcome, cpu_id: usize, metrics: &mut Metrics) -> (sent: bool)
    ensures
        sent == (outcome is Sent),
        final(metrics)@ == noted(old(metrics)@, cpu_id as int, outcome),
{
    match outcome {
        SendOutcome::Sent => true,
        SendOutcome::Full(_) => {
            metrics.record_channel_full(cpu_id);
            false
        },
        SendOutcome::Disconnected(_) => false,
    }
}

/// Gives a frame to the sink, once and without blocking; a full channel is
/// counted. `true` if the frame was sent, `false` if it is lost.
pub fn try_dispatch<S: FrameSink>(
    tx: &mut S,
    frame: SignalFrame,
    cpu_id: usize,
    metrics: &mut Metrics,
) -> (sent: bool)
    ensures
        final(tx).route() == old(tx).route(),
        forall|f: SignalFrame, o: SendOutcome| #[trigger]
            final(tx).answers(f, o) == old(tx).answers(f, o),
        exists|outcome: SendOutcome|
            {
                &&& final(tx).given() == #[trigger] old(tx).given().push((frame, outcome))
                &&& old(tx).answers(frame, outcome)
                &&& outcome.is_about(frame)
                &&& sent == (outcome is Sent)
                &&& final(metrics)@ == noted(old(metrics)@, cpu_id as int, outcome)
            },
{
    let outcome = tx.give(frame);
    note_outcome(outcome, cpu_id, metrics)
}

/// A dispatch channel holds 1024 frames, and its two ends belong together.
pub proof fn dispatch_channels_hold_four_batches(ends: (DispatchSender, DispatchReceiver))
    requires
        call_ensures(dispatch_channel, (), ends),
    ensures
        sink::sender_capacity(ends.0.end()) == Some(1024nat),
        sink::receiver_capacity(ends.1) == Some(1024nat),
        sink::receiver_channel(ends.1) == sink::sender_channel(ends.0.end()),
        ends.0.given().len() == 0,
{
}

/// Only a frame that was taken counts as sent. A full channel is counted, once
/// and on the frame's own CPU; a missing receiver is not counted at all.
pub proof fn only_a_full_channel_is_counted(
    outcome: SendOutcome,
    cpu_id: usize,
    metrics: &mut Metrics,
    sent: bool,
    i: int,
)
    requires
        call_ensures(note_outcome, (outcome, cpu_id, metrics), sent),
        0 <= i < 32,
    ensures
        sent <==> outcome is Sent,
        final(metrics).frames_ok@[i] == old(metrics).frames_ok@[i],
        final(metrics).frames_dropped@[i] == old(metrics).frames_dropped@[i],
        final(metrics).channel_full@[i] == metrics::one_up(
            old(metrics).channel_full@[i],
            outcome is Full && i == cpu_id,
        ),
{
}

/// A dispatched frame is given to the sink once, behind everything given
/// before, and counts as sent exactly if the sink took it.
pub proof fn dispatching_gives_the_frame_once<S: FrameSink>(
    tx: &mut S,
    frame: SignalFrame,
    cpu_id: usize,
    metrics: &mut Metrics,
    sent: bool,
    i: int,
)
    requires
        call_ensures(try_dispatch::<S>, (tx, frame, cpu_id, metrics), sent),
        0 <= i < 32,
    ensures
        final(tx).given().len() == old(tx).given().len() + 1,
        final(tx).given().drop_last() == old(tx).given(),
        ({
            let (last, outcome) = final(tx).given().last();
            &&& last == frame
            &&& sent <==> outcome is Sent
            &&& outcome matches SendOutcome::Full(back) ==> back == frame
            &&& outcome matches SendOutcome::Disconnected(back) ==> back == frame
            &&& final(metrics).frames_ok@[i] == old(metrics).frames_ok@[i]
            &&& final(metrics).frames_dropped@[i] == old(metrics).frames_dropped@[i]
            &&& final(metrics).channel_full@[i] == metrics::one_up(
                old(metrics).channel_full@[i],
                outcome is Full && i == cpu_id,
            )
        }),
{
    assert(final(tx).given().drop_last() =~= old(tx).given());
}

} // verus!
