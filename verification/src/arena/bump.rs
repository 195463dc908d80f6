//! The linear bump allocator.

use vstd::prelude::*;
use vstd::arithmetic::power2;
use vstd::layout;
use crate::common::sizes::ARENA_SIZE_BYTES;
use super::align;
use super::error::ArenaError;
use super::guards::{ArenaInit, ArenaStats};
use super::slice::{ArenaSlice, Zeroed};

verus! {

/// A bump pointer over a budget of [`ARENA_SIZE_BYTES`] bytes. Regions are
/// handed out front to back and never taken back.
pub struct Arena {
    bump: usize,
    cap: usize,
}

/// A request for `bytes` bytes at alignment `align` fits behind the `used`
/// bytes of a budget of `cap` bytes.
pub open spec fn fits(used: nat, cap: nat, align: nat, bytes: nat) -> bool {
    align::aligned_up(used, align) + bytes <= cap
}

/// Granting that request puts its region at `start` and leaves `after` bytes
/// used.
pub open spec fn grants(used: nat, align: nat, bytes: nat, start: nat, after: nat) -> bool {
    &&& start == align::aligned_up(used, align)
    &&& after == start + bytes
}

impl Arena {
    #[verifier::type_invariant]
    spec fn within_budget(self) -> bool {
        &&& self.bump <= self.cap
        &&& self.cap == ARENA_SIZE_BYTES
    }

    /// Bytes behind the bump pointer, alignment gaps among them.
    pub closed spec fn taken(self) -> nat {
        self.bump as nat
    }

    /// Starts an allocation window behind the `used` bytes that the process has
    /// taken of its budget so far. It neither frees nor takes any of them, so
    /// what was handed out before stays valid.
    pub fn init(used: usize) -> (init: ArenaInit)
        requires
            used <= ARENA_SIZE_BYTES,
        ensures
            init.taken() == used,
    {
        ArenaInit::open(Arena { bump: used, cap: ARENA_SIZE_BYTES })
    }

    /// Advances the bump pointer past `n` elements of `size` bytes each,
    /// aligned to `align`, and returns the offset of the first.
    pub fn reserve(&mut self, n: usize, size: usize, align: usize) -> (start: Result<
        usize,
        ArenaError,
    >)
        ensures
            match start {
                Ok(start) => {
                    &&& power2::is_pow2(align as int)
                    &&& fits(
                        old(self).taken(),
                        ARENA_SIZE_BYTES as nat,
                        align as nat,
                        (n * size) as nat,
                    )
                    &&& grants(
                        old(self).taken(),
                        align as nat,
                        (n * size) as nat,
                        start as nat,
                        final(self).taken(),
                    )
                },
                Err(ArenaError::BadAlignment) => {
                    &&& !power2::is_pow2(align as int)
                    &&& final(self).taken() == old(self).taken()
                },
                Err(ArenaError::Exhausted) => {
                    &&& power2::is_pow2(align as int)
                    &&& !fits(
                        old(self).taken(),
                        ARENA_SIZE_BYTES as nat,
                        align as nat,
                        (n * size) as nat,
                    )
                    &&& final(self).taken() == old(self).taken()
                },
                Err(ArenaError::PoolFull) => false,
            },
    {
        proof {
            use_type_invariant(&*self);
        }
        if !align::is_power_of_two(align) {
            return Err(ArenaError::BadAlignment);
        }
        proof {
            reveal(power2::is_pow2);
            align::aligned_up_is_least(self.bump as nat, align as nat, 0);
            align::power_of_two_is_at_most_half(align);
        }
        let total: usize = match n.checked_mul(size) {
            Some(total) => total,
            None => {
                return Err(ArenaError::Exhausted);
            },
        };
        let start: usize = align::align_up(self.bump, align);
        let next: usize = match start.checked_add(total) {
            Some(next) => next,
            None => {
                return Err(ArenaError::Exhausted);
            },
        };
        if next > self.cap {
            return Err(ArenaError::Exhausted);
        }
        self.bump = next;
        Ok(start)
    }

    /// Allocates `n` zero elements of type `T`.
    pub(crate) fn alloc_slice<T: Zeroed>(&mut self, n: usize) -> (slice: Result<
        ArenaSlice<T>,
        ArenaError,
    >)
        ensures
            match slice {
                Ok(slice) => {
                    &&& slice@.len() == n
                    &&& forall|i: int| 0 <= i < n ==> T::is_zero(#[trigger] slice@[i])
                    &&& fits(
                        old(self).taken(),
                        ARENA_SIZE_BYTES as nat,
                        layout::align_of::<T>(),
                        n as nat * layout::size_of::<T>(),
                    )
                    &&& grants(
                        old(self).taken(),
                        layout::align_of::<T>(),
                        n as nat * layout::size_of::<T>(),
                        slice.region_start(),
                        final(self).taken(),
                    )
                },
                Err(e) => {
                    &&& e == ArenaError::Exhausted
                    &&& !fits(
                        old(self).taken(),
                        ARENA_SIZE_BYTES as nat,
                        layout::align_of::<T>(),
                        n as nat * layout::size_of::<T>(),
                    )
                    &&& final(self).taken() == old(self).taken()
                },
            },
    {
        layout::layout_for_type_is_valid::<T>();
        let align: usize = core::mem::align_of::<T>();
        let size: usize = core::mem::size_of::<T>();
        match self.reserve(n, size, align) {
            Ok(start) => Ok(ArenaSlice::zeroed(start, n)),
            Err(e) => Err(e),
        }
    }

    /// Bytes that are still free.
    pub fn remaining_bytes(&self) -> (bytes: usize)
        ensures
            bytes + self.taken() == ARENA_SIZE_BYTES,
    {
        proof {
            use_type_invariant(self);
        }
        self.cap.saturating_sub(self.bump)
    }

    /// Bytes behind the bump pointer.
    pub fn allocated_bytes(&self) -> (bytes: usize)
        ensures
            bytes == self.taken(),
    {
        self.bump
    }

    /// The arena's usage.
    pub fn stats(&self) -> (stats: ArenaStats)
        ensures
            stats.allocated_bytes == self.taken(),
            stats.allocated_bytes + stats.remaining_bytes == ARENA_SIZE_BYTES,
            stats.capacity_bytes == ARENA_SIZE_BYTES,
    {
        proof {
            use_type_invariant(self);
        }
        ArenaStats {
            allocated_bytes: self.bump,
            remaining_bytes: self.cap.saturating_sub(self.bump),
            capacity_bytes: self.cap,
        }
    }
}

/// Granting a request never lowers the number of bytes used.
pub proof fn grants_only_advance(used: nat, align: nat, bytes: nat, start: nat, after: nat)
    requires
        align > 0,
        grants(used, align, bytes, start, after),
    ensures
        used <= start <= after,
        start % align == 0,
{
    align::aligned_up_is_least(used, align, 0);
}

/// No two granted regions overlap: the region granted first ends at or before
/// the start of any region granted later, through the same window or through
/// one that starts where it stopped or behind.
pub proof fn granted_regions_are_disjoint(
    used1: nat,
    align1: nat,
    bytes1: nat,
    start1: nat,
    after1: nat,
    used2: nat,
    align2: nat,
    bytes2: nat,
    start2: nat,
    after2: nat,
)
    requires
        align1 > 0,
        align2 > 0,
        grants(used1, align1, bytes1, start1, after1),
        grants(used2, align2, bytes2, start2, after2),
        after1 <= used2,
    ensures
        start1 + bytes1 <= start2,
{
    grants_only_advance(used2, align2, bytes2, start2, after2);
}

/// A reservation takes the first aligned place behind what is used: it starts
/// at a multiple of the alignment, less than one alignment behind, and ends
/// within the 268435456 bytes of the budget. It is refused as exhausted only
/// if no aligned place behind what is used has room for it, and as badly
/// aligned exactly if the alignment is no power of two. A refusal takes
/// nothing.
pub proof fn reservations_take_the_first_place_that_fits(
    arena: &mut Arena,
    n: usize,
    size: usize,
    alignment: usize,
    start: Result<usize, ArenaError>,
    place: nat,
)
    requires
        call_ensures(Arena::reserve, (arena, n, size, alignment), start),
    ensures
        match start {
            Ok(start) => {
                &&& power2::is_pow2(alignment as int)
                &&& start % alignment == 0
                &&& old(arena).taken() <= start < old(arena).taken() + alignment
                &&& final(arena).taken() == start + n * size
                &&& final(arena).taken() <= 268_435_456
            },
            Err(ArenaError::Exhausted) => {
                &&& power2::is_pow2(alignment as int)
                &&& place >= old(arena).taken() && place % (alignment as nat) == 0 ==> place + n
                    * size > 268_435_456
                &&& final(arena).taken() == old(arena).taken()
            },
            Err(ArenaError::BadAlignment) => {
                &&& !power2::is_pow2(alignment as int)
                &&& final(arena).taken() == old(arena).taken()
            },
            Err(ArenaError::PoolFull) => false,
        },
{
    reveal(power2::is_pow2);
    assert(n * size >= 0) by (nonlinear_arith);
    if power2::is_pow2(alignment as int) {
        align::aligned_up_is_least(old(arena).taken(), alignment as nat, place);
    }
}

/// Two reservations never share a byte: the second starts where the first ends
/// or behind.
pub proof fn reservations_are_disjoint(
    first: &mut Arena,
    second: &mut Arena,
    n: usize,
    size: usize,
    alignment: usize,
    start: usize,
    later_n: usize,
    later_size: usize,
    later_alignment: usize,
    later_start: usize,
)
    requires
        call_ensures(Arena::reserve, (first, n, size, alignment), Ok(start)),
        *old(second) == *final(first),
        call_ensures(
            Arena::reserve,
            (second, later_n, later_size, later_alignment),
            Ok(later_start),
        ),
    ensures
        start + n * size <= later_start,
{
    reservations_take_the_first_place_that_fits(first, n, size, alignment, Ok(start), 0);
    reservations_take_the_first_place_that_fits(
        second,
        later_n,
        later_size,
        later_alignment,
        Ok(later_start),
        0,
    );
}

/// What is used and what is free make up the whole budget, however it is
/// asked for.
pub proof fn usage_adds_up(arena: Arena, used: usize, free: usize, stats: ArenaStats)
    requires
        call_ensures(Arena::allocated_bytes, (&arena,), used),
        call_ensures(Arena::remaining_bytes, (&arena,), free),
        call_ensures(Arena::stats, (&arena,), stats),
    ensures
        used + free == 268_435_456,
        stats.allocated_bytes == used,
        stats.remaining_bytes == free,
        stats.capacity_bytes == 268_435_456,
{
}

/// A request fits exactly if there is an aligned place behind what is used
/// from which it ends within the budget. What is granted starts at the first
/// such place and is used up to its end.
pub proof fn requests_fit_iff_a_place_has_room(
    used: nat,
    cap: nat,
    alignment: nat,
    bytes: nat,
    place: nat,
    start: nat,
    after: nat,
)
    requires
        alignment > 0,
        place >= used,
        place % alignment == 0,
    ensures
        place + bytes <= cap ==> fits(used, cap, alignment, bytes),
        fits(used, cap, alignment, bytes) ==> exists|first: nat|
            used <= first && first + bytes <= cap && #[trigger] (first % alignment) == 0,
        grants(used, alignment, bytes, start, after) <==> {
            &&& start % alignment == 0
            &&& used <= start < used + alignment
            &&& after == start + bytes
        },
        grants(used, alignment, bytes, start, after) ==> start <= place,
{
    align::aligned_up_is_least(used, alignment, place);
    align::aligned_up_is_least(used, alignment, start);
    let first = align::aligned_up(used, alignment);
    assert(first % alignment == 0);
    if start % alignment == 0 && used <= start < used + alignment && start != first {
        let gap = (start - first) as nat;
        vstd::arithmetic::div_mod::lemma_fundamental_div_mod(start as int, alignment as int);
        vstd::arithmetic::div_mod::lemma_fundamental_div_mod(first as int, alignment as int);
        let k = start as int / alignment as int;
        let j = first as int / alignment as int;
        assert(alignment * k - alignment * j == alignment * (k - j)) by (nonlinear_arith);
        assert(false) by (nonlinear_arith)
            requires
                0 < alignment * (k - j) < alignment,
        ;
    }
}

} // verus!
