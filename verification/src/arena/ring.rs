//! The packet ring between capture and analysis.

use vstd::prelude::*;
use vstd::arithmetic::div_mod;
use crate::common::packet::PacketHeader;
use crate::common::traits;
use crate::common::traits::PacketRing;
use super::slice::ArenaSlice;

verus! {

/// A first-in first-out ring over arena memory. `head` is the slot of the
/// oldest entry and `tail` the slot that the next entry goes to; the ring is
/// empty when they meet, so one slot always stays free.
pub struct RingBuffer {
    data: Vec<PacketHeader>,
    head: usize,
    tail: usize,
}

/// The slot that is `steps` behind slot `from` in a ring of `cap` slots.
spec fn slot_after(from: int, steps: int, cap: int) -> int {
    if from + steps < cap {
        from + steps
    } else {
        from + steps - cap
    }
}

impl RingBuffer {
    #[verifier::type_invariant]
    spec fn in_bounds(self) -> bool {
        if self.data@.len() == 0 {
            self.head == 0 && self.tail == 0
        } else {
            self.head < self.data@.len() && self.tail < self.data@.len()
        }
    }

    spec fn count(self) -> int {
        if self.tail >= self.head {
            self.tail - self.head
        } else {
            self.data@.len() - self.head + self.tail
        }
    }

    /// The entries, oldest first.
    pub closed spec fn entries(self) -> Seq<PacketHeader> {
        Seq::new(
            self.count() as nat,
            |i: int| self.data@[slot_after(self.head as int, i, self.data@.len() as int)],
        )
    }

    /// Backing slots.
    pub closed spec fn backing_len(self) -> nat {
        self.data@.len()
    }

    /// An empty ring over `backing`.
    pub fn new(backing: ArenaSlice<PacketHeader>) -> (ring: RingBuffer)
        ensures
            ring.entries() == Seq::<PacketHeader>::empty(),
            ring.backing_len() == backing@.len(),
    {
        RingBuffer { data: backing.into_vec(), head: 0, tail: 0 }
    }
}

/// The slot behind slot `at`.
fn next_slot(at: usize, cap: usize) -> (next: usize)
    requires
        at < cap,
    ensures
        next == slot_after(at as int, 1, cap as int),
{
    proof {
        if at + 1 < cap {
            div_mod::lemma_small_mod((at + 1) as nat, cap as nat);
        } else {
            div_mod::lemma_mod_self_0(cap as int);
        }
    }
    (at + 1) % cap
}

impl PacketRing for RingBuffer {
    open spec fn queue(&self) -> Seq<PacketHeader> {
        self.entries()
    }

    open spec fn slots(&self) -> nat {
        self.backing_len()
    }

    fn push(&mut self, pkt: PacketHeader) -> (kept_all: bool) {
        proof {
            use_type_invariant(&*self);
        }
        let ghost before = *self;
        let cap: usize = self.data.len();
        let tail: usize = self.tail;
        let next: usize = next_slot(tail, cap);
        let overwrite: bool = next == self.head;
        if overwrite {
            self.head = next_slot(self.head, cap);
        }
        self.data[tail] = pkt;
        self.tail = next;
        proof {
            let grown = before.entries().push(pkt);
            if overwrite {
                assert(self.entries() =~= grown.drop_first());
            } else {
                assert(self.entries() =~= grown);
            }
        }
        !overwrite
    }

    fn pop(&mut self) -> (oldest: Option<PacketHeader>) {
        proof {
            use_type_invariant(&*self);
        }
        let ghost before = *self;
        if self.head == self.tail {
            return None;
        }
        let pkt: PacketHeader = self.data[self.head];
        self.head = next_slot(self.head, self.data.len());
        assert(self.entries() =~= before.entries().drop_first());
        Some(pkt)
    }

    fn len(&self) -> (n: usize) {
        proof {
            use_type_invariant(self);
        }
        if self.tail >= self.head {
            self.tail - self.head
        } else {
            self.data.len() - self.head + self.tail
        }
    }

    fn is_empty(&self) -> (empty: bool) {
        proof {
            use_type_invariant(self);
        }
        self.head == self.tail
    }
}

/// What a queue in a ring of `slots` slots becomes when `pkts` are pushed one
/// after the other.
pub open spec fn after_pushes(
    queue: Seq<PacketHeader>,
    slots: nat,
    pkts: Seq<PacketHeader>,
) -> Seq<PacketHeader>
    decreases pkts.len(),
{
    if pkts.len() == 0 {
        queue
    } else {
        traits::pushed(after_pushes(queue, slots, pkts.drop_last()), slots, pkts.last())
    }
}

/// A ring keeps the newest packets in the order in which they came: after any
/// pushes into an empty ring of `slots` slots it holds the last `slots - 1` of
/// them, or all of them if they are fewer.
pub proof fn ring_keeps_the_newest(slots: nat, pkts: Seq<PacketHeader>)
    requires
        slots > 0,
    ensures
        after_pushes(Seq::empty(), slots, pkts) == pkts.subrange(
            if pkts.len() < slots {
                0
            } else {
                pkts.len() - (slots - 1)
            },
            pkts.len() as int,
        ),
    decreases pkts.len(),
{
    if pkts.len() > 0 {
        ring_keeps_the_newest(slots, pkts.drop_last());
    }
    assert(after_pushes(Seq::empty(), slots, pkts) =~= pkts.subrange(
        if pkts.len() < slots {
            0
        } else {
            pkts.len() - (slots - 1)
        },
        pkts.len() as int,
    ));
}

/// A push puts the packet behind all others. As long as the ring holds fewer
/// than all slots but one, nothing else changes; a full ring loses its oldest
/// packet and says so.
pub proof fn pushes_append_or_displace(ring: &mut RingBuffer, pkt: PacketHeader, kept_all: bool)
    requires
        old(ring).backing_len() >= 2,
        call_ensures(<RingBuffer as PacketRing>::push, (ring, pkt), kept_all),
    ensures
        kept_all <==> old(ring).entries().len() + 1 < old(ring).backing_len(),
        final(ring).backing_len() == old(ring).backing_len(),
        final(ring).entries().len() > 0,
        final(ring).entries().last() == pkt,
        kept_all ==> final(ring).entries().drop_last() == old(ring).entries(),
        !kept_all && old(ring).entries().len() > 0 ==> final(ring).entries().drop_last()
            == old(ring).entries().drop_first(),
{
    let before = old(ring).entries();
    let after = final(ring).entries();
    assert(after == traits::pushed(before, old(ring).backing_len(), pkt));
    if kept_all {
        assert(after.drop_last() =~= before);
    } else if before.len() > 0 {
        assert(after.drop_last() =~= before.drop_first());
    } else {
        assert(before.push(pkt).len() == 1);
    }
}

/// Packets come out in the order in which they went in: a pop takes the oldest
/// and leaves the others, and is refused exactly by an empty ring. A packet
/// pushed into an empty ring is what comes out next, and the ring is empty
/// again.
pub proof fn pops_take_the_oldest(
    ring: &mut RingBuffer,
    oldest: Option<PacketHeader>,
    fresh: &mut RingBuffer,
    pkt: PacketHeader,
    kept_all: bool,
    filled: &mut RingBuffer,
    back: Option<PacketHeader>,
)
    requires
        call_ensures(<RingBuffer as PacketRing>::pop, (ring,), oldest),
        old(fresh).backing_len() >= 2,
        old(fresh).entries().len() == 0,
        call_ensures(<RingBuffer as PacketRing>::push, (fresh, pkt), kept_all),
        *old(filled) == *final(fresh),
        call_ensures(<RingBuffer as PacketRing>::pop, (filled,), back),
    ensures
        oldest is None <==> old(ring).entries().len() == 0,
        oldest is None ==> final(ring).entries() == old(ring).entries(),
        oldest is Some ==> seq![oldest->0] + final(ring).entries() == old(ring).entries(),
        back == Some(pkt),
        final(filled).entries().len() == 0,
{
    pushes_append_or_displace(fresh, pkt, kept_all);
    if oldest is Some {
        assert(seq![oldest->0] + final(ring).entries() =~= old(ring).entries());
    }
}

/// A fresh ring is empty, and a ring says how many packets it holds, and that
/// it is empty exactly if that is none.
pub proof fn rings_know_their_length(
    backing: ArenaSlice<PacketHeader>,
    fresh: RingBuffer,
    ring: RingBuffer,
    n: usize,
    empty: bool,
)
    requires
        call_ensures(RingBuffer::new, (backing,), fresh),
        call_ensures(<RingBuffer as PacketRing>::len, (&ring,), n),
        call_ensures(<RingBuffer as PacketRing>::is_empty, (&ring,), empty),
    ensures
        fresh.entries().len() == 0,
        fresh.backing_len() == backing@.len(),
        n == ring.entries().len(),
        empty <==> n == 0,
{
}

} // verus!
