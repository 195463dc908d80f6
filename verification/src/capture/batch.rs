//! A worker's batch: the frames that wait for dispatch, in a fixed buffer.

use vstd::prelude::*;
use arrayvec::ArrayVec;
use crate::common::signal_frame::SignalFrame;

verus! {

/// Frames that a worker drains from its ring per round.
pub const BATCH_SIZE: usize = 256;

/// A vector with its storage inline. Opaque here.
#[verifier::external_type_specification]
#[verifier::external_body]
#[verifier::reject_recursive_types(T)]
pub struct ExArrayVec<T, const CAP: usize>(arrayvec::ArrayVec<T, CAP>);

/// A worker's batch of frames.
pub type Batch = ArrayVec<SignalFrame, BATCH_SIZE>;

/// The frames in a batch, first pushed first.
pub uninterp spec fn batch_frames(batch: ArrayVec<SignalFrame, BATCH_SIZE>) -> Seq<SignalFrame>;

/// Calls `ArrayVec::new`: an empty batch.
#[verifier::external_body]
pub(crate) fn new_batch() -> (batch: Batch)
    ensures
        batch_frames(batch) == Seq::<SignalFrame>::empty(),
{
    ArrayVec::new()
}

/// Calls `ArrayVec::clear`: nothing is left in the batch.
#[verifier::external_body]
pub(crate) fn clear_batch(batch: &mut Batch)
    ensures
        batch_frames(*final(batch)) == Seq::<SignalFrame>::empty(),
{
    batch.clear()
}

/// Calls `ArrayVec::try_push`: appends the frame if the batch holds fewer than
/// [`BATCH_SIZE`] frames, and otherwise refuses it and changes nothing.
#[verifier::external_body]
pub(crate) fn push_frame(batch: &mut Batch, frame: SignalFrame) -> (pushed: bool)
    ensures
        pushed == (batch_frames(*old(batch)).len() < BATCH_SIZE),
        batch_frames(*final(batch)) == if pushed {
            batch_frames(*old(batch)).push(frame)
        } else {
            batch_frames(*old(batch))
        },
{
    batch.try_push(frame).is_ok()
}

/// Calls `ArrayVec::as_slice`: the frames in the batch, in order.
#[verifier::external_body]
pub(crate) fn frames_in(batch: &Batch) -> (frames: &[SignalFrame])
    ensures
        frames@ == batch_frames(*batch),
{
    batch.as_slice()
}

} // verus!
