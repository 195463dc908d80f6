//! The two states of an arena: open for allocation, and locked.

use vstd::prelude::*;
use core::marker::PhantomData;
use std::rc::Rc;
use crate::common::sizes::ARENA_SIZE_BYTES;
use crate::common::traits::{ArenaAllocator, MemoryProvider};
use super::bump::Arena;
use super::error::ArenaError;
use super::slice::{ArenaSlice, Zeroed};

verus! {

/// A snapshot of an arena's usage.
#[derive(Clone, Copy, Debug)]
pub struct ArenaStats {
    pub allocated_bytes: usize,
    pub remaining_bytes: usize,
    pub capacity_bytes: usize,
}

/// An arena that is open for allocation. It cannot cross a thread boundary,
/// so the allocation window is single-threaded.
pub struct ArenaInit {
    arena: Arena,
    not_send: PhantomData<Rc<()>>,
}

impl ArenaInit {
    /// Bytes behind the bump pointer.
    pub closed spec fn taken(self) -> nat {
        self.arena.taken()
    }

    /// Opens the allocation window of `arena`.
    pub(crate) fn open(arena: Arena) -> (init: ArenaInit)
        ensures
            init.taken() == arena.taken(),
    {
        ArenaInit { arena, not_send: PhantomData }
    }

    /// Closes the allocation window and keeps a snapshot of the usage.
    pub fn lock(self) -> (locked: ArenaLocked)
        ensures
            locked.taken() == self.taken(),
    {
        ArenaLocked { stats: self.arena.stats() }
    }
}

impl ArenaAllocator for ArenaInit {
    type Error = ArenaError;

    open spec fn bytes_used(&self) -> nat {
        self.taken()
    }

    open spec fn budget(&self) -> nat {
        ARENA_SIZE_BYTES as nat
    }

    fn alloc_slice<T: Zeroed>(&mut self, n: usize) -> (slice: Result<ArenaSlice<T>, ArenaError>)
        ensures
            slice matches Err(e) ==> e == ArenaError::Exhausted,
    {
        self.arena.alloc_slice(n)
    }

    fn remaining_bytes(&self) -> (bytes: usize) {
        self.arena.remaining_bytes()
    }

    fn allocated_bytes(&self) -> (bytes: usize) {
        self.arena.allocated_bytes()
    }
}

/// An arena whose allocation window is closed. It only reports.
#[derive(Debug)]
pub struct ArenaLocked {
    stats: ArenaStats,
}

impl ArenaLocked {
    #[verifier::type_invariant]
    spec fn consistent(self) -> bool {
        &&& self.stats.allocated_bytes + self.stats.remaining_bytes == ARENA_SIZE_BYTES
        &&& self.stats.capacity_bytes == ARENA_SIZE_BYTES
    }

    /// Bytes that were in use when the arena was locked.
    pub closed spec fn taken(self) -> nat {
        self.stats.allocated_bytes as nat
    }

    /// The usage at the time of the lock.
    pub fn stats(&self) -> (stats: ArenaStats)
        ensures
            stats.allocated_bytes == self.taken(),
            stats.allocated_bytes + stats.remaining_bytes == ARENA_SIZE_BYTES,
            stats.capacity_bytes == ARENA_SIZE_BYTES,
    {
        proof {
            use_type_invariant(self);
        }
        self.stats
    }

    /// Bytes that were free when the arena was locked.
    pub fn remaining_bytes(&self) -> (bytes: usize)
        ensures
            bytes + self.taken() == ARENA_SIZE_BYTES,
    {
        proof {
            use_type_invariant(self);
        }
        self.stats.remaining_bytes
    }

    /// Bytes that were in use when the arena was locked.
    pub fn allocated_bytes(&self) -> (bytes: usize)
        ensures
            bytes == self.taken(),
    {
        self.stats.allocated_bytes
    }
}

impl MemoryProvider for ArenaLocked {
    fn capacity(&self) -> (bytes: usize) {
        proof {
            use_type_invariant(self);
        }
        self.stats.capacity_bytes
    }

    fn used(&self) -> (bytes: usize)
        ensures
            bytes == self.taken(),
    {
        proof {
            use_type_invariant(self);
        }
        self.stats.allocated_bytes
    }

    fn free(&self) -> (bytes: usize)
        ensures
            bytes + self.taken() == ARENA_SIZE_BYTES,
    {
        proof {
            use_type_invariant(self);
        }
        self.stats.remaining_bytes
    }
}

/// Locking an arena changes nothing: what the locked arena reports is what the
/// open one had taken, and taken and free bytes make up the whole budget.
pub proof fn locking_keeps_the_usage(
    init: ArenaInit,
    used: usize,
    free: usize,
    locked: ArenaLocked,
    stats: ArenaStats,
    locked_used: usize,
    locked_free: usize,
    provider_capacity: usize,
    provider_used: usize,
    provider_free: usize,
)
    requires
        call_ensures(<ArenaInit as ArenaAllocator>::allocated_bytes, (&init,), used),
        call_ensures(<ArenaInit as ArenaAllocator>::remaining_bytes, (&init,), free),
        call_ensures(ArenaInit::lock, (init,), locked),
        call_ensures(ArenaLocked::stats, (&locked,), stats),
        call_ensures(ArenaLocked::allocated_bytes, (&locked,), locked_used),
        call_ensures(ArenaLocked::remaining_bytes, (&locked,), locked_free),
        call_ensures(<ArenaLocked as MemoryProvider>::capacity, (&locked,), provider_capacity),
        call_ensures(<ArenaLocked as MemoryProvider>::used, (&locked,), provider_used),
        call_ensures(<ArenaLocked as MemoryProvider>::free, (&locked,), provider_free),
    ensures
        used + free == 268_435_456,
        locked_used == used,
        locked_free == free,
        stats.allocated_bytes == used,
        stats.remaining_bytes == free,
        stats.capacity_bytes == 268_435_456,
        provider_capacity == 268_435_456,
        provider_used == used,
        provider_free == free,
{
}

/// A window that opens behind `used` bytes has those bytes used, and the rest
/// of the budget free.
pub proof fn windows_open_behind_what_is_used(
    used: usize,
    init: ArenaInit,
    allocated: usize,
    free: usize,
)
    requires
        call_ensures(Arena::init, (used,), init),
        call_ensures(<ArenaInit as ArenaAllocator>::allocated_bytes, (&init,), allocated),
        call_ensures(<ArenaInit as ArenaAllocator>::remaining_bytes, (&init,), free),
    ensures
        allocated == used,
        free == 268_435_456 - used,
{
}

} // verus!
