//! Taking events out of the event ring.

use vstd::prelude::*;
use crate::common::event::{parse_ebpf_event, EbpfEvent, EBPF_EVENT_SIZE};
use crate::common::packet::FlowKey;
use crate::common::traits::{EbpfSource, MAX_DRAIN_EVENTS};

verus! {

/// The loader's memory of the event ring: how many records were unusable.
#[derive(Clone, Copy, Debug)]
pub struct EventDrain {
    pub ringbuf_drops: u64,
}

/// One more drop, up to the counter's end.
pub open spec fn one_more(drops: u64) -> u64 {
    if drops < u64::MAX {
        (drops + 1) as u64
    } else {
        drops
    }
}

/// What taking the record `raw` does to the events in `out`, of which `count`
/// are collected, and to the drop counter.
pub open spec fn took(
    raw: Seq<u8>,
    out: Seq<EbpfEvent>,
    count: nat,
    drops: u64,
    out_after: Seq<EbpfEvent>,
    count_after: nat,
    drops_after: u64,
) -> bool {
    if raw.len() < EBPF_EVENT_SIZE {
        &&& count_after == count
        &&& out_after == out
        &&& drops_after == one_more(drops)
    } else {
        &&& count_after == count + 1
        &&& out_after == out.update(count as int, out_after[count as int])
        &&& out_after[count as int].read_from(raw)
        &&& drops_after == drops
    }
}

/// The records that are long enough for an event, in order.
pub open spec fn usable(records: Seq<Seq<u8>>) -> Seq<Seq<u8>>
    decreases records.len(),
{
    if records.len() == 0 {
        Seq::empty()
    } else if records.last().len() < EBPF_EVENT_SIZE {
        usable(records.drop_last())
    } else {
        usable(records.drop_last()).push(records.last())
    }
}

/// `drops` and `more` drops, up to the counter's end.
pub open spec fn drops_and(drops: u64, more: nat) -> u64 {
    if drops + more <= u64::MAX {
        (drops + more) as u64
    } else {
        u64::MAX
    }
}

impl EventDrain {
    /// A drain that has dropped nothing.
    pub fn new() -> (drain: EventDrain)
        ensures
            drain.ringbuf_drops == 0,
    {
        EventDrain { ringbuf_drops: 0 }
    }

    /// Whether a call that has collected `count` events may take another.
    pub fn has_room(count: usize) -> (room: bool)
        ensures
            room == (count < MAX_DRAIN_EVENTS),
    {
        count < MAX_DRAIN_EVENTS
    }

    /// Takes one record behind the `count` events collected so far, and returns
    /// how many there are then. A record that is too short for an event is
    /// dropped and counted; bytes behind an event are ignored.
    pub fn take_record(
        &mut self,
        raw: &[u8],
        out: &mut [EbpfEvent; MAX_DRAIN_EVENTS],
        count: usize,
    ) -> (collected: usize)
        requires
            count < MAX_DRAIN_EVENTS,
        ensures
            collected <= MAX_DRAIN_EVENTS,
            took(
                raw@,
                old(out)@,
                count as nat,
                old(self).ringbuf_drops,
                final(out)@,
                collected as nat,
                final(self).ringbuf_drops,
            ),
    {
        if raw.len() < EBPF_EVENT_SIZE {
            self.ringbuf_drops = self.ringbuf_drops.saturating_add(1);
            return count;
        }
        out[count] = parse_ebpf_event(raw);
        assert(out@ =~= old(out)@.update(count as int, out@[count as int]));
        count + 1
    }
}

/// Through a shared reference the loader can neither read the ring nor write a
/// map: it hands out no event and accepts writes without effect.
impl EbpfSource for EventDrain {
    type Error = ();

    fn drain_events<'a>(&'a self, out: &'a mut [EbpfEvent; MAX_DRAIN_EVENTS]) -> (events: Result<
        &'a [EbpfEvent],
        (),
    >)
        ensures
            events matches Ok(events) && events@.len() == 0,
            final(out)@ == old(out)@,
    {
        Ok(&[])
    }

    fn ringbuf_drop_count(&self) -> (drops: u64)
        ensures
            drops == self.ringbuf_drops,
    {
        self.ringbuf_drops
    }

    fn write_deny_map(&self, _src_ip: u32) -> (written: Result<(), ()>)
        ensures
            written is Ok,
    {
        Ok(())
    }

    fn write_fingerprint_map(&self, _key: FlowKey) -> (written: Result<(), ()>)
        ensures
            written is Ok,
    {
        Ok(())
    }
}

/// Between its states `k` and `k + 1` a drain call with room took the record
/// `k`.
pub open spec fn took_record(
    records: Seq<Seq<u8>>,
    outs: Seq<Seq<EbpfEvent>>,
    counts: Seq<nat>,
    drops: Seq<u64>,
    k: int,
) -> bool {
    &&& counts[k] < MAX_DRAIN_EVENTS
    &&& took(records[k], outs[k], counts[k], drops[k], outs[k + 1], counts[k + 1], drops[k + 1])
}

/// A drain call that takes `records` one after another, as long as it has
/// room, collects the usable ones in order and no others, at most
/// [`MAX_DRAIN_EVENTS`], and counts the short ones. `outs`, `counts` and
/// `drops` are the states between the records.
pub proof fn drain_collects_the_usable_records(
    records: Seq<Seq<u8>>,
    outs: Seq<Seq<EbpfEvent>>,
    counts: Seq<nat>,
    drops: Seq<u64>,
)
    requires
        outs.len() == records.len() + 1,
        counts.len() == records.len() + 1,
        drops.len() == records.len() + 1,
        outs[0].len() == MAX_DRAIN_EVENTS,
        counts[0] == 0,
        forall|k: int|
            0 <= k < records.len() ==> #[trigger] took_record(records, outs, counts, drops, k),
    ensures
        counts.last() == usable(records).len(),
        counts.last() <= MAX_DRAIN_EVENTS,
        outs.last().len() == MAX_DRAIN_EVENTS,
        forall|i: int|
            0 <= i < usable(records).len() ==> (#[trigger] outs.last()[i]).read_from(
                usable(records)[i],
            ),
        forall|i: int|
            usable(records).len() <= i < MAX_DRAIN_EVENTS ==> #[trigger] outs.last()[i]
                == outs[0][i],
        drops.last() == drops_and(drops[0], (records.len() - usable(records).len()) as nat),
        usable(records).len() <= records.len(),
    decreases records.len(),
{
    if records.len() > 0 {
        let n = records.len() - 1;
        let init = records.drop_last();
        let outs_init = outs.drop_last();
        let counts_init = counts.drop_last();
        let drops_init = drops.drop_last();
        assert forall|k: int| 0 <= k < init.len() implies #[trigger] took_record(
            init,
            outs_init,
            counts_init,
            drops_init,
            k,
        ) by {
            assert(took_record(records, outs, counts, drops, k));
        }
        drain_collects_the_usable_records(init, outs_init, counts_init, drops_init);
        assert(took_record(records, outs, counts, drops, n));
    }
}

/// What taking one record does: a record of fewer than 48 bytes is counted as
/// a drop and changes nothing else; any other is the next event, parsed from
/// its first 48 bytes, behind those collected so far. A full drop counter
/// stays full. A call has room for 1024 events.
pub proof fn records_are_taken_one_by_one(
    drain: &mut EventDrain,
    raw: &[u8],
    out: &mut [EbpfEvent; MAX_DRAIN_EVENTS],
    count: usize,
    collected: usize,
    parsed: EbpfEvent,
    room: bool,
    i: int,
)
    requires
        call_ensures(EventDrain::has_room, (count,), room),
        room,
        call_ensures(EventDrain::take_record, (drain, raw, out, count), collected),
        raw@.len() >= 48 ==> call_ensures(parse_ebpf_event, (raw,), parsed),
        0 <= i < 1024,
    ensures
        count < 1024,
        raw@.len() < 48 ==> {
            &&& collected == count
            &&& final(out)@[i] == old(out)@[i]
            &&& final(drain).ringbuf_drops == if old(drain).ringbuf_drops == u64::MAX {
                u64::MAX as int
            } else {
                old(drain).ringbuf_drops + 1
            }
        },
        raw@.len() >= 48 ==> {
            &&& collected == count + 1
            &&& final(out)@[i] == if i == count {
                parsed
            } else {
                old(out)@[i]
            }
            &&& final(drain).ringbuf_drops == old(drain).ringbuf_drops
        },
{
    if raw@.len() >= 48 {
        let taken = final(out)@[count as int];
        assert(taken._pad =~= parsed._pad);
        assert(taken.comm =~= parsed.comm);
    }
}

/// A drain call may take another record exactly as long as it has collected
/// fewer than 1024 events.
pub proof fn a_call_collects_up_to_1024(count: usize, room: bool)
    requires
        call_ensures(EventDrain::has_room, (count,), room),
    ensures
        room <==> count < 1024,
{
}

/// The usable records are those of at least 48 bytes, in the order in which
/// they came, and no others.
pub proof fn usable_records_are_the_long_ones(records: Seq<Seq<u8>>)
    ensures
        usable(records) == records.filter(|raw: Seq<u8>| raw.len() >= 48),
    decreases records.len(),
{
    reveal(Seq::filter);
    if records.len() > 0 {
        usable_records_are_the_long_ones(records.drop_last());
    }
}

/// Through a shared reference the drain hands out no event, leaves the buffer
/// as it was, accepts writes, and reports the drops counted so far.
pub proof fn shared_drain_has_no_effect(
    drain: EventDrain,
    fresh: EventDrain,
    drops: u64,
    src_ip: u32,
    key: FlowKey,
    denied: Result<(), ()>,
    armed: Result<(), ()>,
)
    requires
        call_ensures(EventDrain::new, (), fresh),
        call_ensures(<EventDrain as EbpfSource>::ringbuf_drop_count, (&drain,), drops),
        call_ensures(<EventDrain as EbpfSource>::write_deny_map, (&drain, src_ip), denied),
        call_ensures(<EventDrain as EbpfSource>::write_fingerprint_map, (&drain, key), armed),
    ensures
        fresh.ringbuf_drops == 0,
        drops == drain.ringbuf_drops,
        denied is Ok,
        armed is Ok,
{
}

} // verus!
