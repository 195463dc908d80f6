//! Errors of the arena.

use vstd::prelude::*;

verus! {

/// Why a request for memory was refused.
#[derive(Clone, Copy, Debug, PartialEq, Eq, Structural)]
pub enum ArenaError {
    /// Too little space remains.
    Exhausted,
    /// The pool has no free slot.
    PoolFull,
    /// The alignment is not a power of two.
    BadAlignment,
}

} // verus!
