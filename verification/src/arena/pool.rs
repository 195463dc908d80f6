//! The object pool.

use vstd::prelude::*;
use core::marker::PhantomData;
use super::slice::ArenaSlice;

verus! {

/// Ends the chain of free slots.
const SENTINEL: usize = usize::MAX;

/// A fixed set of slots. Free slots form a stack, threaded through
/// `free_list`: entry `i` names the slot below slot `i`.
pub struct Pool<T: Copy + Default> {
    slots: Vec<T>,
    free_list: Vec<usize>,
    free_head: usize,
    base: usize,
    stack: Ghost<Seq<usize>>,
}

/// The right to use one slot of a pool. It cannot be copied, so no one else
/// holds the same slot until it is released. It belongs to the pool whose
/// slots lie at the same offset of the arena.
#[derive(Debug)]
pub struct PoolHandle<T: Copy + Default> {
    idx: usize,
    base: usize,
    of: PhantomData<T>,
}

/// The entry at depth `depth` of the stack, or the sentinel below its end.
spec fn at_depth(stack: Seq<usize>, depth: int) -> usize {
    if depth < stack.len() {
        stack[depth]
    } else {
        SENTINEL
    }
}

/// Taking the top slot `idx` off the stack `before` leaves `after`.
pub open spec fn takes(before: Seq<usize>, idx: usize, after: Seq<usize>) -> bool {
    &&& before.len() > 0
    &&& idx == before[0]
    &&& after == before.drop_first()
}

/// Putting slot `idx` back on the stack `before` leaves `after`.
pub open spec fn gives_back(before: Seq<usize>, idx: usize, after: Seq<usize>) -> bool {
    after == seq![idx] + before
}

impl<T: Copy + Default> Pool<T> {
    /// The free slots are distinct slots of this pool, and the chain through
    /// `free_list` visits them in the order of the stack.
    pub closed spec fn wf(self) -> bool {
        &&& self.free_list@.len() == self.slots@.len()
        &&& self.stack@.no_duplicates()
        &&& forall|d: int|
            0 <= d < self.stack@.len() ==> (#[trigger] self.stack@[d]) < self.slots@.len()
        &&& self.free_head == at_depth(self.stack@, 0)
        &&& forall|d: int|
            0 <= d < self.stack@.len() ==> self.free_list@[#[trigger] self.stack@[d] as int]
                == at_depth(self.stack@, d + 1)
    }

    /// The free slots, top of the stack first.
    pub closed spec fn free(self) -> Seq<usize> {
        self.stack@
    }

    /// Where the slots lie in the arena. Pools over regions that the arena
    /// granted lie apart, so this tells one pool from another.
    pub closed spec fn region(self) -> nat {
        self.base as nat
    }

    /// The contents of the slots.
    pub closed spec fn values(self) -> Seq<T> {
        self.slots@
    }

    /// A pool over `slots` in which every slot is free and holds the default
    /// value. The slots will be handed out in order.
    pub fn new(slots: ArenaSlice<T>, free_list: ArenaSlice<usize>) -> (pool: Pool<T>)
        requires
            slots@.len() == free_list@.len(),
        ensures
            pool.wf(),
            pool.region() == slots.region_start(),
            pool.values().len() == slots@.len(),
            forall|i: int|
                0 <= i < slots@.len() ==> call_ensures(
                    T::default,
                    (),
                    #[trigger] pool.values()[i],
                ),
            pool.free() == Seq::new(slots@.len(), |i: int| i as usize),
    {
        let base: usize = slots.offset();
        let mut slots: Vec<T> = slots.into_vec();
        let mut free_list: Vec<usize> = free_list.into_vec();
        let cap: usize = slots.len();
        let mut i: usize = 0;
        while i < cap
            invariant
                i <= cap,
                slots@.len() == cap,
                free_list@.len() == cap,
                forall|j: int|
                    0 <= j < i ==> #[trigger] free_list@[j] == if j + 1 < cap {
                        (j + 1) as usize
                    } else {
                        SENTINEL
                    },
                forall|j: int|
                    0 <= j < i ==> call_ensures(T::default, (), #[trigger] slots@[j]),
            decreases cap - i,
        {
            free_list.set(
                i,
                if i + 1 < cap {
                    i + 1
                } else {
                    SENTINEL
                },
            );
            slots.set(i, T::default());
            i += 1;
        }
        let free_head: usize = if cap > 0 {
            0
        } else {
            SENTINEL
        };
        Pool {
            slots,
            free_list,
            free_head,
            base,
            stack: Ghost(Seq::new(cap as nat, |i: int| i as usize)),
        }
    }

    /// Takes a free slot; `None` if there is none.
    pub fn alloc_slot(&mut self) -> (handle: Option<PoolHandle<T>>)
        requires
            old(self).wf(),
        ensures
            final(self).wf(),
            final(self).region() == old(self).region(),
            final(self).values() == old(self).values(),
            match handle {
                Some(h) => {
                    &&& h.region() == old(self).region()
                    &&& takes(old(self).free(), h.slot(), final(self).free())
                    &&& h.slot() < old(self).values().len()
                    &&& !final(self).free().contains(h.slot())
                },
                None => old(self).free().len() == 0 && final(self).free() == old(self).free(),
            },
    {
        match self.pop_free() {
            Some(idx) => Some(PoolHandle { idx, base: self.base, of: PhantomData }),
            None => None,
        }
    }

    /// Gives a slot back. It is the next one to be handed out.
    pub fn release(&mut self, handle: PoolHandle<T>)
        requires
            old(self).wf(),
            handle.region() == old(self).region(),
            handle.slot() < old(self).values().len(),
            !old(self).free().contains(handle.slot()),
        ensures
            final(self).wf(),
            final(self).region() == old(self).region(),
            final(self).values() == old(self).values(),
            gives_back(old(self).free(), handle.slot(), final(self).free()),
    {
        self.push_free(handle.idx);
    }

    /// Number of slots.
    pub fn capacity(&self) -> (cap: usize)
        ensures
            cap == self.values().len(),
    {
        self.slots.len()
    }

    /// Takes the top index off the stack; `None` if the stack is empty.
    fn pop_free(&mut self) -> (idx: Option<usize>)
        requires
            old(self).wf(),
        ensures
            final(self).wf(),
            final(self).region() == old(self).region(),
            final(self).values() == old(self).values(),
            match idx {
                Some(idx) => {
                    &&& takes(old(self).free(), idx, final(self).free())
                    &&& idx < old(self).values().len()
                    &&& !final(self).free().contains(idx)
                },
                None => old(self).free().len() == 0 && final(self).free() == old(self).free(),
            },
    {
        let head: usize = self.free_head;
        let _cap: usize = self.slots.len();
        if head == SENTINEL {
            assert(self.stack@.len() > 0 ==> self.stack@[0] < _cap);
            return None;
        }
        self.free_head = self.free_list[head];
        let ghost before = self.stack@;
        proof {
            self.stack@ = before.drop_first();
            assert(forall|d: int|
                0 <= d < self.stack@.len() ==> #[trigger] self.stack@[d] == before[d + 1]);
        }
        Some(head)
    }

    /// Puts an index on top of the stack.
    fn push_free(&mut self, idx: usize)
        requires
            old(self).wf(),
            idx < old(self).values().len(),
            !old(self).free().contains(idx),
        ensures
            final(self).wf(),
            final(self).region() == old(self).region(),
            final(self).values() == old(self).values(),
            gives_back(old(self).free(), idx, final(self).free()),
    {
        let ghost before = self.stack@;
        self.free_list.set(idx, self.free_head);
        self.free_head = idx;
        proof {
            self.stack@ = seq![idx] + before;
            assert(forall|d: int|
                0 < d < self.stack@.len() ==> #[trigger] self.stack@[d] == before[d - 1]);
            assert(forall|d: int| 0 <= d < before.len() ==> #[trigger] before[d] != idx);
        }
    }
}

impl<T: Copy + Default> PoolHandle<T> {
    /// The slot that the handle stands for.
    pub closed spec fn slot(self) -> usize {
        self.idx
    }

    /// Where the slots of the handle's pool lie in the arena.
    pub closed spec fn region(self) -> nat {
        self.base as nat
    }

    /// The slot's index within its pool.
    pub fn index(&self) -> (idx: usize)
        ensures
            idx == self.slot(),
    {
        self.idx
    }

    /// The slot's value.
    pub fn get<'a>(&self, pool: &'a Pool<T>) -> (value: &'a T)
        requires
            self.region() == pool.region(),
            self.slot() < pool.values().len(),
        ensures
            *value == pool.values()[self.slot() as int],
    {
        &pool.slots[self.idx]
    }

    /// Access to the slot's value. Nothing else in the pool changes.
    pub fn get_mut<'a>(&self, pool: &'a mut Pool<T>) -> (value: &'a mut T)
        requires
            self.region() == old(pool).region(),
            self.slot() < old(pool).values().len(),
        ensures
            *value == old(pool).values()[self.slot() as int],
            final(pool).values() == old(pool).values().update(self.slot() as int, *final(value)),
            final(pool).region() == old(pool).region(),
            final(pool).free() == old(pool).free(),
            old(pool).wf() ==> final(pool).wf(),
    {
        &mut pool.slots[self.idx]
    }
}

/// The pool is last in, first out: the slot given back last is the next one
/// handed out, and taking it restores the stack as it was.
pub proof fn last_slot_back_is_first_out(
    before: Seq<usize>,
    back: usize,
    between: Seq<usize>,
    out: usize,
    after: Seq<usize>,
)
    requires
        gives_back(before, back, between),
        takes(between, out, after),
    ensures
        out == back,
        after == before,
{
    assert(between.drop_first() =~= before);
}

/// A slot that is out is not handed out again, whatever else is taken.
pub proof fn slot_in_use_is_not_handed_out(
    in_use: usize,
    before: Seq<usize>,
    out: usize,
    after: Seq<usize>,
)
    requires
        !before.contains(in_use),
        takes(before, out, after),
    ensures
        out != in_use,
        !after.contains(in_use),
{
    assert(before.contains(before[0]));
    if after.contains(in_use) {
        let d = choose|d: int| 0 <= d < after.len() && after[d] == in_use;
        assert(before[d + 1] == in_use);
    }
}

/// Giving one slot back leaves every other slot that is out, out.
pub proof fn slot_in_use_stays_in_use(
    in_use: usize,
    before: Seq<usize>,
    back: usize,
    after: Seq<usize>,
)
    requires
        !before.contains(in_use),
        back != in_use,
        gives_back(before, back, after),
    ensures
        !after.contains(in_use),
{
    if after.contains(in_use) {
        let d = choose|d: int| 0 <= d < after.len() && after[d] == in_use;
        assert(d > 0 && before[d - 1] == in_use);
    }
}

/// A fresh pool hands its slots out in order, from the first.
pub proof fn fresh_slots_come_in_order<T: Copy + Default>(
    slots: ArenaSlice<T>,
    free_list: ArenaSlice<usize>,
    pool: Pool<T>,
    first: &mut Pool<T>,
    second: &mut Pool<T>,
    one: Option<PoolHandle<T>>,
    two: Option<PoolHandle<T>>,
)
    requires
        slots@.len() == free_list@.len(),
        slots@.len() <= usize::MAX,
        call_ensures(Pool::<T>::new, (slots, free_list), pool),
        *old(first) == pool,
        call_ensures(Pool::<T>::alloc_slot, (first,), one),
        *old(second) == *final(first),
        call_ensures(Pool::<T>::alloc_slot, (second,), two),
    ensures
        one is Some <==> slots@.len() >= 1,
        two is Some <==> slots@.len() >= 2,
        one matches Some(h) ==> h.slot() == 0,
        two matches Some(h) ==> h.slot() == 1,
{
}

/// The slot given back last is the next one handed out, and taking it leaves
/// the free slots as they were before it came back.
pub proof fn released_slot_is_next<T: Copy + Default>(
    back: &mut Pool<T>,
    handle: PoolHandle<T>,
    next: &mut Pool<T>,
    out: Option<PoolHandle<T>>,
)
    requires
        call_ensures(Pool::<T>::release, (back, handle), ()),
        *old(next) == *final(back),
        call_ensures(Pool::<T>::alloc_slot, (next,), out),
    ensures
        out matches Some(h) && h.slot() == handle.slot() && h.region() == old(back).region(),
        final(next).free() == old(back).free(),
        final(next).values() == old(back).values(),
{
    assert(final(back).free().drop_first() =~= old(back).free());
}

/// A slot is handed out only if it is free, and is not free while it is out;
/// every other slot's state stays. A pool refuses exactly if no slot is free.
pub proof fn taking_a_slot_takes_that_slot_alone<T: Copy + Default>(
    pool: &mut Pool<T>,
    out: Option<PoolHandle<T>>,
    other: usize,
)
    requires
        old(pool).wf(),
        call_ensures(Pool::<T>::alloc_slot, (pool,), out),
    ensures
        out is None <==> old(pool).free().len() == 0,
        out matches Some(h) ==> {
            &&& old(pool).free().contains(h.slot())
            &&& !final(pool).free().contains(h.slot())
            &&& final(pool).free().len() + 1 == old(pool).free().len()
            &&& other != h.slot() ==> (final(pool).free().contains(other) <==> old(
                pool,
            ).free().contains(other))
        },
{
    if out is Some {
        let before = old(pool).free();
        let after = final(pool).free();
        assert(before[0] == out->0.slot());
        if before.contains(other) && other != out->0.slot() {
            let d = choose|d: int| 0 <= d < before.len() && before[d] == other;
            assert(after[d - 1] == other);
        }
        if after.contains(other) {
            let d = choose|d: int| 0 <= d < after.len() && after[d] == other;
            assert(before[d + 1] == other);
        }
    }
}

/// What is written through a handle is what is read through it afterwards, and
/// nothing is seen of it through a handle for another slot.
pub proof fn reads_see_the_last_write<T: Copy + Default>(
    handle: PoolHandle<T>,
    other: PoolHandle<T>,
    pool: &mut Pool<T>,
    before: Pool<T>,
    after: Pool<T>,
    place: &mut T,
    own: &T,
    seen_before: &T,
    seen_after: &T,
)
    requires
        handle.slot() < old(pool).values().len(),
        before == *old(pool),
        call_ensures(PoolHandle::<T>::get_mut, (&handle, pool), place),
        after == *final(pool),
        call_ensures(PoolHandle::<T>::get, (&handle, &after), own),
        call_ensures(PoolHandle::<T>::get, (&other, &before), seen_before),
        call_ensures(PoolHandle::<T>::get, (&other, &after), seen_after),
    ensures
        *own == *final(place),
        other.slot() != handle.slot() && other.slot() < old(pool).values().len() ==> *seen_after
            == *seen_before,
{
}

/// A fresh pool has as many slots as it was given, says so, and all are free.
pub proof fn fresh_pools_are_all_free<T: Copy + Default>(
    slots: ArenaSlice<T>,
    free_list: ArenaSlice<usize>,
    pool: Pool<T>,
    cap: usize,
    i: usize,
)
    requires
        slots@.len() == free_list@.len(),
        slots@.len() <= usize::MAX,
        call_ensures(Pool::<T>::new, (slots, free_list), pool),
        call_ensures(Pool::<T>::capacity, (&pool,), cap),
    ensures
        cap == slots@.len(),
        pool.free().len() == cap,
        pool.free().contains(i) <==> i < cap,
{
    if i < cap {
        assert(pool.free()[i as int] == i);
    }
}

/// A handle's index is the slot whose value it reads.
pub proof fn handles_read_their_own_slot<T: Copy + Default>(
    pool: Pool<T>,
    handle: PoolHandle<T>,
    idx: usize,
    value: &T,
)
    requires
        call_ensures(PoolHandle::<T>::index, (&handle,), idx),
        call_ensures(PoolHandle::<T>::get, (&handle, &pool), value),
    ensures
        *value == pool.values()[idx as int],
{
}

} // verus!
