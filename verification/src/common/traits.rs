//! The interfaces between the stages of the pipeline.

use vstd::prelude::*;
use vstd::layout;
use crate::arena::bump;
use crate::arena::slice::{ArenaSlice, Zeroed};
use super::alert::Alert;
use super::event::EbpfEvent;
use super::packet::{FlowKey, FlowScore, PacketHeader};
use super::sizes::ARENA_SIZE_BYTES;

verus! {

/// Events that one call of [`EbpfSource::drain_events`] hands out at most.
pub const MAX_DRAIN_EVENTS: usize = 1_024;

/// A source of kernel events.
pub trait EbpfSource {
    type Error;

    /// The pending events, at most [`MAX_DRAIN_EVENTS`] of them; none if
    /// nothing is pending. Never blocks.
    fn drain_events<'a>(&'a self, out: &'a mut [EbpfEvent; MAX_DRAIN_EVENTS]) -> (events: Result<
        &'a [EbpfEvent],
        Self::Error,
    >)
        ensures
            events matches Ok(events) ==> events@.len() <= MAX_DRAIN_EVENTS,
    ;

    /// Events lost so far.
    fn ringbuf_drop_count(&self) -> u64;

    /// Puts a source address on the deny list.
    fn write_deny_map(&self, src_ip: u32) -> Result<(), Self::Error>;

    /// Arms fingerprint spoofing for a flow.
    fn write_fingerprint_map(&self, key: FlowKey) -> Result<(), Self::Error>;
}

/// A bump allocator over a fixed budget.
pub trait ArenaAllocator {
    type Error;

    /// Bytes behind the bump pointer.
    spec fn bytes_used(&self) -> nat;

    /// The whole budget in bytes.
    spec fn budget(&self) -> nat;

    /// Allocates `n` zero elements of type `T`, or refuses because they do
    /// not fit and changes nothing.
    fn alloc_slice<T: Zeroed>(&mut self, n: usize) -> (slice: Result<ArenaSlice<T>, Self::Error>)
        ensures
            final(self).budget() == old(self).budget(),
            slice is Ok <==> bump::fits(
                old(self).bytes_used(),
                old(self).budget(),
                layout::align_of::<T>(),
                n as nat * layout::size_of::<T>(),
            ),
            match slice {
                Ok(slice) => {
                    &&& slice@.len() == n
                    &&& forall|i: int| 0 <= i < n ==> T::is_zero(#[trigger] slice@[i])
                    &&& bump::grants(
                        old(self).bytes_used(),
                        layout::align_of::<T>(),
                        n as nat * layout::size_of::<T>(),
                        slice.region_start(),
                        final(self).bytes_used(),
                    )
                },
                Err(_) => final(self).bytes_used() == old(self).bytes_used(),
            },
    ;

    /// Bytes that are still free.
    fn remaining_bytes(&self) -> (bytes: usize)
        ensures
            bytes + self.bytes_used() == self.budget(),
    ;

    /// Bytes behind the bump pointer.
    fn allocated_bytes(&self) -> (bytes: usize)
        ensures
            bytes == self.bytes_used(),
    ;
}

/// What `queue` becomes when `pkt` is pushed into a ring of `slots` slots: one
/// slot stays empty, so a full ring loses its oldest entry.
pub open spec fn pushed(queue: Seq<PacketHeader>, slots: nat, pkt: PacketHeader) -> Seq<
    PacketHeader,
> {
    if queue.len() + 1 < slots {
        queue.push(pkt)
    } else {
        queue.push(pkt).drop_first()
    }
}

/// A first-in first-out ring of packet headers that drops its oldest entry
/// when it is full. One of its backing slots always stays empty.
pub trait PacketRing {
    /// The headers in the ring, oldest first.
    spec fn queue(&self) -> Seq<PacketHeader>;

    /// Backing slots.
    spec fn slots(&self) -> nat;

    /// Appends `pkt`. On a full ring the oldest entry is dropped and `false`
    /// is returned.
    fn push(&mut self, pkt: PacketHeader) -> (kept_all: bool)
        requires
            old(self).slots() > 0,
        ensures
            final(self).slots() == old(self).slots(),
            kept_all == (old(self).queue().len() + 1 < old(self).slots()),
            final(self).queue() == pushed(old(self).queue(), old(self).slots(), pkt),
    ;

    /// Takes the oldest entry; `None` if the ring is empty.
    fn pop(&mut self) -> (oldest: Option<PacketHeader>)
        ensures
            final(self).slots() == old(self).slots(),
            match oldest {
                Some(pkt) => {
                    &&& old(self).queue().len() > 0
                    &&& pkt == old(self).queue().first()
                    &&& final(self).queue() == old(self).queue().drop_first()
                },
                None => old(self).queue().len() == 0 && final(self).queue() == old(self).queue(),
            },
    ;

    /// Number of entries.
    fn len(&self) -> (n: usize)
        ensures
            n == self.queue().len(),
            n > 0 ==> n < self.slots(),
    ;

    /// Whether there is no entry.
    fn is_empty(&self) -> (empty: bool)
        ensures
            empty == (self.queue().len() == 0),
    ;
}

/// The stage that turns a flow's sub-scores into an alert.
pub trait ScoringPipeline {
    type Error;

    /// An alert if the composite score calls for one.
    fn score(&self, flow: FlowKey, sub: FlowScore) -> Result<Option<Alert>, Self::Error>;
}

/// A read-only view of an arena's usage.
pub trait MemoryProvider {
    /// The whole budget: always [`ARENA_SIZE_BYTES`].
    fn capacity(&self) -> (bytes: usize)
        ensures
            bytes == ARENA_SIZE_BYTES,
    ;

    /// Bytes that completed allocations consume.
    fn used(&self) -> (bytes: usize)
        ensures
            bytes <= ARENA_SIZE_BYTES,
    ;

    /// The rest of the budget: what [`MemoryProvider::used`] leaves of it.
    fn free(&self) -> (bytes: usize)
        ensures
            forall|used: usize| #[trigger]
                call_ensures(Self::used, (self,), used) ==> bytes + used == ARENA_SIZE_BYTES,
    ;
}

} // verus!
