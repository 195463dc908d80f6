//! Where a capture worker puts its frames.
//!
//! Frames go through [`FrameSink::give`] alone, which keeps a log of them as
//! ghost state. The log is out of reach of the worker's code, so what a
//! contract says of it is said of the calls that were made.

use vstd::prelude::*;
use crossbeam_channel::{Receiver, Sender, TrySendError};
use crate::common::signal_frame::SignalFrame;

verus! {

/// The sending half of a channel. Opaque here.
#[verifier::external_type_specification]
#[verifier::external_body]
#[verifier::reject_recursive_types(T)]
pub struct ExSender<T>(crossbeam_channel::Sender<T>);

/// The receiving half of a channel. Opaque here.
#[verifier::external_type_specification]
#[verifier::external_body]
#[verifier::reject_recursive_types(T)]
pub struct ExReceiver<T>(crossbeam_channel::Receiver<T>);

/// The capacity of the channel that a sender belongs to, as
/// `crossbeam_channel::Sender::capacity` reports it: `None` if unbounded.
pub uninterp spec fn sender_capacity(tx: Sender<SignalFrame>) -> Option<nat>;

/// The capacity of the channel that a receiver belongs to, as
/// `crossbeam_channel::Receiver::capacity` reports it: `None` if unbounded.
pub uninterp spec fn receiver_capacity(rx: Receiver<SignalFrame>) -> Option<nat>;

/// The channel that a sender belongs to, as
/// `crossbeam_channel::Sender::same_channel` tells channels apart.
pub uninterp spec fn sender_channel(tx: Sender<SignalFrame>) -> int;

/// The channel that a receiver belongs to, as
/// `crossbeam_channel::Receiver::same_channel` tells channels apart.
pub uninterp spec fn receiver_channel(rx: Receiver<SignalFrame>) -> int;

/// What became of a frame that was offered to the channel.
#[derive(Clone, Copy, Debug)]
pub enum SendOutcome {
    /// The channel took it.
    Sent,
    /// The channel was full; the frame came back.
    Full(SignalFrame),
    /// No receiver is left; the frame came back.
    Disconnected(SignalFrame),
}

impl SendOutcome {
    /// The outcome is one of offering `frame`: what came back is `frame`.
    pub open spec fn is_about(self, frame: SignalFrame) -> bool {
        match self {
            SendOutcome::Sent => true,
            SendOutcome::Full(back) => back == frame,
            SendOutcome::Disconnected(back) => back == frame,
        }
    }
}

/// Something that frames are given to, one at a time.
pub trait FrameSink {
    /// Every frame given so far and what became of it, oldest first.
    spec fn given(&self) -> Seq<(SignalFrame, SendOutcome)>;

    /// Where the frames go. Giving frames never changes it.
    spec fn route(&self) -> int;

    /// `outcome` is one of offering `frame` by this sink's way of offering.
    /// Giving frames never changes that way.
    spec fn answers(&self, frame: SignalFrame, outcome: SendOutcome) -> bool;

    /// Gives one frame, without blocking. A frame that is not taken comes back
    /// as it was.
    fn give(&mut self, frame: SignalFrame) -> (outcome: SendOutcome)
        ensures
            final(self).given() == old(self).given().push((frame, outcome)),
            final(self).route() == old(self).route(),
            old(self).answers(frame, outcome),
            outcome.is_about(frame),
            forall|f: SignalFrame, o: SendOutcome| #[trigger]
                final(self).answers(f, o) == old(self).answers(f, o),
    ;
}

/// Calls `crossbeam_channel::bounded`: the two halves of one channel of
/// capacity `cap`, both of which report that capacity. That function panics on
/// a capacity so large that its bookkeeping or its buffer overflows.
#[verifier::external_body]
fn bounded_frames(cap: usize) -> (ends: (Sender<SignalFrame>, Receiver<SignalFrame>))
    requires
        0 < cap <= 65_536,
    ensures
        sender_capacity(ends.0) == Some(cap as nat),
        receiver_capacity(ends.1) == Some(cap as nat),
        receiver_channel(ends.1) == sender_channel(ends.0),
{
    crossbeam_channel::bounded(cap)
}

/// Calls `crossbeam_channel::Sender::try_send`, which never blocks. A frame
/// that is not sent comes back unchanged, and only a bounded channel can be
/// full. Which outcome comes depends on the receivers and is left open.
#[verifier::external_body]
fn offer(tx: &Sender<SignalFrame>, frame: SignalFrame) -> (outcome: SendOutcome)
    ensures
        outcome.is_about(frame),
        outcome is Full ==> sender_capacity(*tx) is Some,
{
    match tx.try_send(frame) {
        Ok(()) => SendOutcome::Sent,
        Err(TrySendError::Full(back)) => SendOutcome::Full(back),
        Err(TrySendError::Disconnected(back)) => SendOutcome::Disconnected(back),
    }
}

/// `outcome` is one of offering `frame` to the channel of `tx`.
pub closed spec fn offered(
    tx: Sender<SignalFrame>,
    frame: SignalFrame,
    outcome: SendOutcome,
) -> bool {
    call_ensures(offer, (&tx, frame), outcome)
}

/// Offers a frame with the given way of offering.
fn offer_with<G: Fn(&Sender<SignalFrame>, SignalFrame) -> SendOutcome>(
    give: &G,
    tx: &Sender<SignalFrame>,
    frame: SignalFrame,
) -> (outcome: SendOutcome)
    requires
        give.requires((tx, frame)),
    ensures
        give.ensures((tx, frame), outcome),
{
    give(tx, frame)
}

/// The producer end of a dispatch channel, held by a capture worker.
pub struct DispatchSender {
    tx: Sender<SignalFrame>,
    log: Ghost<Seq<(SignalFrame, SendOutcome)>>,
}

/// The consumer end of a dispatch channel, held by an arena consumer.
pub type DispatchReceiver = Receiver<SignalFrame>;

impl DispatchSender {
    /// The sending half of the channel.
    pub closed spec fn end(self) -> Sender<SignalFrame> {
        self.tx
    }
}

impl FrameSink for DispatchSender {
    closed spec fn given(&self) -> Seq<(SignalFrame, SendOutcome)> {
        self.log@
    }

    open spec fn route(&self) -> int {
        sender_channel(self.end())
    }

    open spec fn answers(&self, frame: SignalFrame, outcome: SendOutcome) -> bool {
        offered(self.end(), frame, outcome)
    }

    /// Offers the frame to the channel once, and logs it.
    fn give(&mut self, frame: SignalFrame) -> (outcome: SendOutcome)
        ensures
            final(self).end() == old(self).end(),
            outcome is Full ==> sender_capacity(old(self).end()) is Some,
    {
        let outcome = offer_with(&offer, &self.tx, frame);
        proof {
            self.log@ = self.log@.push((frame, outcome));
        }
        outcome
    }
}

/// The two ends of a fresh channel that holds `cap` frames.
pub fn open_channel(cap: usize) -> (ends: (DispatchSender, DispatchReceiver))
    requires
        0 < cap <= 65_536,
    ensures
        sender_capacity(ends.0.end()) == Some(cap as nat),
        receiver_capacity(ends.1) == Some(cap as nat),
        receiver_channel(ends.1) == ends.0.route(),
        ends.0.given() == Seq::<(SignalFrame, SendOutcome)>::empty(),
{
    let (tx, rx) = bounded_frames(cap);
    (DispatchSender { tx, log: Ghost(Seq::empty()) }, rx)
}

/// A fresh channel holds as many frames as was asked for, its two ends belong
/// together, and nothing has been given to it.
pub proof fn channels_hold_what_was_asked_for(
    cap: usize,
    ends: (DispatchSender, DispatchReceiver),
)
    requires
        call_ensures(open_channel, (cap,), ends),
    ensures
        sender_capacity(ends.0.end()) == Some(cap as nat),
        receiver_capacity(ends.1) == Some(cap as nat),
        receiver_channel(ends.1) == sender_channel(ends.0.end()),
        ends.0.given().len() == 0,
{
}

/// A frame given to the channel is logged behind all others with what became
/// of it, and comes back as it was unless it was sent.
pub proof fn given_frames_are_logged(
    tx: &mut DispatchSender,
    frame: SignalFrame,
    outcome: SendOutcome,
)
    requires
        call_ensures(<DispatchSender as FrameSink>::give, (tx, frame), outcome),
    ensures
        final(tx).given().len() == old(tx).given().len() + 1,
        final(tx).given().drop_last() == old(tx).given(),
        final(tx).given().last() == (frame, outcome),
        final(tx).end() == old(tx).end(),
        match outcome {
            SendOutcome::Sent => true,
            SendOutcome::Full(back) => back == frame,
            SendOutcome::Disconnected(back) => back == frame,
        },
{
    assert(final(tx).given().drop_last() =~= old(tx).given());
}

} // verus!
