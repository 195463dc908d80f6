//! A table of ring handles, one slot per CPU.

use vstd::prelude::*;
use crate::common::sizes::NCPU;

verus! {

/// Ring handles by CPU. A CPU without a ring has an empty slot.
pub struct PerCpuRingTable<R> {
    handles: Box<[Option<R>; NCPU]>,
}

/// How many slots of a table are filled.
pub open spec fn filled<R>(slots: Seq<Option<R>>) -> nat
    decreases slots.len(),
{
    if slots.len() == 0 {
        0
    } else {
        filled(slots.drop_last()) + if slots.last() is Some {
            1nat
        } else {
            0nat
        }
    }
}

/// How many of the handles are there.
pub fn count_filled<R>(handles: &[Option<R>]) -> (count: usize)
    ensures
        count == filled(handles@),
{
    let mut count: usize = 0;
    let mut i: usize = 0;
    while i < handles.len()
        invariant
            i <= handles@.len(),
            count <= i,
            count == filled(handles@.take(i as int)),
        decreases handles@.len() - i,
    {
        assert(handles@.take(i as int + 1).drop_last() =~= handles@.take(i as int));
        if handles[i].is_some() {
            count = count + 1;
        }
        i = i + 1;
    }
    assert(handles@.take(handles@.len() as int) =~= handles@);
    count
}

impl<R> PerCpuRingTable<R> {
    /// The slots, indexed by CPU.
    pub closed spec fn slots(self) -> Seq<Option<R>> {
        self.handles@
    }

    /// A table of the given handles.
    pub fn new(handles: Box<[Option<R>; NCPU]>) -> (table: PerCpuRingTable<R>)
        ensures
            table.slots() == handles@,
    {
        PerCpuRingTable { handles }
    }

    /// The handle of `cpu_id`; `None` if the CPU is outside the table or has
    /// no ring.
    pub fn get_mut(&mut self, cpu_id: usize) -> (handle: Option<&mut R>)
        ensures
            handle is Some <==> cpu_id < NCPU && old(self).slots()[cpu_id as int] is Some,
            match handle {
                Some(handle) => {
                    &&& *handle == old(self).slots()[cpu_id as int]->0
                    &&& final(self).slots() == old(self).slots().update(
                        cpu_id as int,
                        Some(*final(handle)),
                    )
                },
                None => final(self).slots() == old(self).slots(),
            },
    {
        if cpu_id >= NCPU {
            return None;
        }
        self.handles[cpu_id].as_mut()
    }

    /// How many CPUs have a ring.
    pub fn populated_count(&self) -> (count: usize)
        ensures
            count == filled(self.slots()),
    {
        count_filled(self.handles.as_slice())
    }
}

/// Handles are counted one by one: none in an empty table, one in a table of
/// one filled slot and none in a table of one empty slot, and in two tables
/// side by side as many as in the two together.
pub proof fn handles_are_counted_one_by_one<R>(
    left: &[Option<R>],
    right: &[Option<R>],
    both: &[Option<R>],
    in_left: usize,
    in_right: usize,
    in_both: usize,
)
    requires
        both@ == left@ + right@,
        call_ensures(count_filled::<R>, (left,), in_left),
        call_ensures(count_filled::<R>, (right,), in_right),
        call_ensures(count_filled::<R>, (both,), in_both),
    ensures
        left@.len() == 0 ==> in_left == 0,
        left@.len() == 1 ==> in_left == if left@[0] is Some {
            1int
        } else {
            0int
        },
        in_both == in_left + in_right,
{
    filled_side_by_side(left@, right@);
    reveal_with_fuel(filled, 2);
}

proof fn filled_side_by_side<R>(left: Seq<Option<R>>, right: Seq<Option<R>>)
    ensures
        filled(left + right) == filled(left) + filled(right),
    decreases right.len(),
{
    if right.len() == 0 {
        assert(left + right =~= left);
    } else {
        filled_side_by_side(left, right.drop_last());
        assert((left + right).drop_last() =~= left + right.drop_last());
    }
}

/// A table holds the handles that it was made of: it counts as many as there
/// are, finds the handle of each of its 32 CPUs, and nothing for another CPU.
pub proof fn tables_hold_their_handles<R>(
    handles: Box<[Option<R>; NCPU]>,
    slots: &[Option<R>],
    table: PerCpuRingTable<R>,
    asked: &mut PerCpuRingTable<R>,
    cpu_id: usize,
    found: Option<&mut R>,
    count: usize,
    in_slots: usize,
)
    requires
        slots@ == handles@,
        call_ensures(PerCpuRingTable::<R>::new, (handles,), table),
        *old(asked) == table,
        call_ensures(PerCpuRingTable::<R>::get_mut, (asked, cpu_id), found),
        call_ensures(PerCpuRingTable::<R>::populated_count, (&table,), count),
        call_ensures(count_filled::<R>, (slots,), in_slots),
    ensures
        found is Some <==> cpu_id < 32 && handles@[cpu_id as int] is Some,
        found matches Some(r) ==> Some(*r) == handles@[cpu_id as int],
        count == in_slots,
{
}

} // verus!
