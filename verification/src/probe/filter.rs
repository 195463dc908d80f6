//! The signal probe's admission rule: the deny list, then the packet rate.

use vstd::prelude::*;
use super::flow_hash;
use super::flow_hash::murmur3_13;
use super::proto_view::ProtoView;

verus! {

/// Packets that a CPU's counter admits.
pub const MAXPPS_THRESHOLD: u64 = 1_000_000;

/// Entries of the deny map.
pub const DENY_MAP_ENTRIES: u64 = 65_536;

/// What the filter says of a packet that it admits.
#[derive(Clone, Copy, Debug)]
pub struct FilterResult {
    pub flow_hash: u64,
    pub pps_delta: u32,
}

/// The entry of the deny map that a flow hash falls on.
pub open spec fn deny_index(flow_hash: u64) -> u32 {
    (flow_hash % DENY_MAP_ENTRIES) as u32
}

/// A deny map entry denies: it is there and not zero.
pub open spec fn denies(entry: Option<u8>) -> bool {
    entry matches Some(flag) && flag != 0
}

/// The 32-bit hash of a packet's 5-tuple.
pub open spec fn view_hash(view: ProtoView) -> u64 {
    flow_hash::murmur3_32(
        flow_hash::packed_tuple(view.src_ip, view.dst_ip, view.src_port, view.dst_port, view.proto),
        0,
    ) as u64
}

/// A packet that is not denied is admitted: its CPU's counter is there and
/// below the threshold.
pub open spec fn has_room(counter: Option<u64>) -> bool {
    counter matches Some(count) && count < MAXPPS_THRESHOLD
}

/// What the filter says of a packet with hash `flow_hash`.
pub open spec fn admitted(flow_hash: u64, denied: bool, counter: Option<u64>) -> Option<
    FilterResult,
> {
    if !denied && has_room(counter) {
        Some(FilterResult { flow_hash, pps_delta: counter->0 as u32 })
    } else {
        None
    }
}

/// The counter after the filter has seen a packet: only an admitted packet
/// counts.
pub open spec fn counted(denied: bool, counter: Option<u64>) -> Option<u64> {
    if !denied && has_room(counter) {
        Some((counter->0 + 1) as u64)
    } else {
        counter
    }
}

/// The value behind an optional counter.
pub open spec fn count_before(counter: Option<&mut u64>) -> Option<u64> {
    match counter {
        Some(c) => Some(*c),
        None => None,
    }
}

/// Whether a flow is on the deny list, by the deny map's answer.
pub fn deny_check<D: Fn(u32) -> Option<u8>>(deny_map: &D, flow_hash: u64) -> (denied: bool)
    requires
        deny_map.requires((deny_index(flow_hash),)),
    ensures
        exists|entry: Option<u8>|
            #[trigger] deny_map.ensures((deny_index(flow_hash),), entry) && denied == denies(entry),
{
    let index: u32 = (flow_hash % DENY_MAP_ENTRIES) as u32;
    let entry = deny_map(index);
    assert(deny_map.ensures((deny_index(flow_hash),), entry));
    match entry {
        Some(flag) => flag != 0,
        None => false,
    }
}

/// Admits a packet against the rate limit, unless it is denied. Counts only
/// what it admits.
pub fn let_through(flow_hash: u64, denied: bool, counter: Option<&mut u64>) -> (result: Option<
    FilterResult,
>)
    ensures
        result == admitted(flow_hash, denied, count_before(counter)),
        counter matches Some(c) ==> Some(*final(c)) == counted(denied, Some(*c)),
{
    if denied {
        return None;
    }
    match counter {
        Some(count) => {
            let seen: u64 = *count;
            if seen >= MAXPPS_THRESHOLD {
                return None;
            }
            *count = seen + 1;
            Some(FilterResult { flow_hash, pps_delta: seen as u32 })
        },
        None => None,
    }
}

/// Judges a parsed packet: hashes its 5-tuple, asks the deny map, and lets the
/// packet through to the rate limit only if it is not denied.
pub fn select<D: Fn(u32) -> Option<u8>>(
    view: &ProtoView,
    deny_map: &D,
    counter: Option<&mut u64>,
) -> (result: Option<FilterResult>)
    requires
        deny_map.requires((deny_index(view_hash(*view)),)),
    ensures
        exists|entry: Option<u8>|
            {
                &&& #[trigger] deny_map.ensures((deny_index(view_hash(*view)),), entry)
                &&& result == admitted(view_hash(*view), denies(entry), count_before(counter))
                &&& counter matches Some(c) ==> Some(*final(c)) == counted(denies(entry), Some(*c))
            },
{
    let flow_hash: u64 = murmur3_13(
        view.src_ip,
        view.dst_ip,
        view.src_port,
        view.dst_port,
        view.proto,
    ) as u64;
    let denied = deny_check(deny_map, flow_hash);
    let_through(flow_hash, denied, counter)
}

/// A denied packet leaves the counter as it was, so it takes no room from the
/// packets that are let through.
pub proof fn denied_packets_are_not_counted(flow_hash: u64, counter: Option<u64>)
    ensures
        admitted(flow_hash, true, counter) is None,
        counted(true, counter) == counter,
{
}

/// A counter that starts at or below the threshold never passes it, and stops
/// every packet once it is there.
pub proof fn counter_stops_at_the_threshold(flow_hash: u64, denied: bool, count: u64)
    requires
        count <= MAXPPS_THRESHOLD,
    ensures
        counted(denied, Some(count))->0 <= MAXPPS_THRESHOLD,
        admitted(flow_hash, denied, Some(count)) matches Some(r) ==> r.pps_delta < MAXPPS_THRESHOLD,
        count == MAXPPS_THRESHOLD ==> admitted(flow_hash, denied, Some(count)) is None,
{
}

/// The counter after `seen` packets that are not denied.
pub open spec fn counted_packets(start: u64, seen: nat) -> Option<u64>
    decreases seen,
{
    if seen == 0 {
        Some(start)
    } else {
        counted(false, counted_packets(start, (seen - 1) as nat))
    }
}

/// From zero, the counter admits the first packets up to the threshold and
/// none after them.
pub proof fn first_packets_are_admitted(flow_hash: u64, seen: nat)
    ensures
        counted_packets(0, seen) == Some(
            if seen <= MAXPPS_THRESHOLD {
                seen as u64
            } else {
                MAXPPS_THRESHOLD
            },
        ),
        admitted(flow_hash, false, counted_packets(0, seen)) is Some <==> seen < MAXPPS_THRESHOLD,
    decreases seen,
{
    if seen > 0 {
        first_packets_are_admitted(flow_hash, (seen - 1) as nat);
    }
}

/// Every one of the 65536 deny entries has its own flows: a hash falls on the
/// entry that its low 16 bits name, so two hashes share an entry exactly if
/// those bits agree, and the hash `i` falls on entry `i` for every `i` that
/// names one.
pub proof fn deny_entries_are_told_by_the_low_bits(one: u64, other: u64)
    ensures
        deny_index(one) == one & 0xffff,
        deny_index(one) == deny_index(other) <==> one & 0xffff == other & 0xffff,
        one < 65_536 ==> deny_index(one) == one,
        deny_index(one) < 65_536,
{
    low_bits(one);
    low_bits(other);
}

/// The low 16 bits of a hash.
proof fn low_bits(hash: u64)
    ensures
        hash % 65_536 == hash & 0xffff,
{
    assert(hash % 65_536 == hash & 0xffff) by (bit_vector);
}

/// A flow is denied exactly if the deny map holds a nonzero entry at the low
/// 16 bits of its hash, whatever stands at the other indices.
pub proof fn denied_iff_its_own_entry_says_so<D: Fn(u32) -> Option<u8>>(
    deny_map: &D,
    entries: spec_fn(u32) -> Option<u8>,
    flow_hash: u64,
    denied: bool,
)
    requires
        forall|index: u32, entry: Option<u8>| #[trigger]
            deny_map.ensures((index,), entry) ==> entry == entries(index),
        call_ensures(deny_check::<D>, (deny_map, flow_hash), denied),
    ensures
        denied <==> entries((flow_hash & 0xffff) as u32) is Some && entries(
            (flow_hash & 0xffff) as u32,
        )->0 != 0,
{
    low_bits(flow_hash);
}

/// Listing one flow's entry denies exactly the flows whose hashes have the
/// same low 16 bits, where nothing was listed before.
pub proof fn a_listed_entry_denies_its_own_flows<D: Fn(u32) -> Option<u8>>(
    deny_map: &D,
    listed: u64,
    flow_hash: u64,
    denied: bool,
)
    requires
        forall|index: u32, entry: Option<u8>| #[trigger]
            deny_map.ensures((index,), entry) ==> entry == (if index == listed & 0xffff {
                Some(1u8)
            } else {
                None
            }),
        call_ensures(deny_check::<D>, (deny_map, flow_hash), denied),
    ensures
        denied <==> flow_hash & 0xffff == listed & 0xffff,
{
    low_bits(flow_hash);
    low_bits(listed);
}

/// A packet is let through exactly if it is not denied and its CPU's counter
/// is there and below a million. The result says the packet's hash and how
/// many packets were let through before it, and the counter goes up by one
/// exactly if the packet is let through.
pub proof fn let_through_iff_there_is_room(
    flow_hash: u64,
    denied: bool,
    counter: Option<&mut u64>,
    result: Option<FilterResult>,
)
    requires
        call_ensures(let_through, (flow_hash, denied, counter), result),
    ensures
        result is Some <==> !denied && (counter matches Some(c) && *c < 1_000_000),
        result matches Some(r) ==> r.flow_hash == flow_hash && (counter matches Some(c)
            && r.pps_delta == *c),
        counter matches Some(c) ==> *final(c) == *c + if result is Some {
            1int
        } else {
            0int
        },
{
}

/// Two packets in a row on one CPU: the second is told that one more packet
/// was let through before it than the first was.
pub proof fn let_through_packets_count_up(one: u64, other: u64, counter: Option<u64>)
    ensures
        admitted(other, false, counted(false, counter)) matches Some(second) ==> {
            &&& admitted(one, false, counter) matches Some(first) && second.pps_delta
                == first.pps_delta + 1
        },
        admitted(one, false, counter) matches Some(first) && first.pps_delta < 999_999
            ==> admitted(other, false, counted(false, counter)) is Some,
{
}

/// The filter goes by the hash of the packet's 5-tuple: the packet is let
/// through exactly if the deny map holds no nonzero entry at the low 16 bits
/// of that hash and the counter is there and below a million. The counter goes
/// up by one exactly if it is.
pub proof fn select_goes_by_the_hash<D: Fn(u32) -> Option<u8>>(
    view: &ProtoView,
    deny_map: &D,
    counter: Option<&mut u64>,
    entries: spec_fn(u32) -> Option<u8>,
    hash: u32,
    result: Option<FilterResult>,
)
    requires
        forall|index: u32, entry: Option<u8>| #[trigger]
            deny_map.ensures((index,), entry) ==> entry == entries(index),
        call_ensures(
            murmur3_13,
            (view.src_ip, view.dst_ip, view.src_port, view.dst_port, view.proto),
            hash,
        ),
        call_ensures(select::<D>, (view, deny_map, counter), result),
    ensures
        ({
            let entry = entries((hash & 0xffff) as u32);
            &&& result is Some <==> !(entry is Some && entry->0 != 0) && (counter matches Some(c)
                && *c < 1_000_000)
            &&& result matches Some(r) ==> r.flow_hash == hash && (counter matches Some(c)
                && r.pps_delta == *c)
            &&& counter matches Some(c) ==> *final(c) == *c + if result is Some {
                1int
            } else {
                0int
            }
        }),
{
    low_bits(hash as u64);
    assert(hash as u64 & 0xffff == (hash & 0xffff) as u64) by (bit_vector);
}

} // verus!
