//! Map identities that the loader and the kernel programs agree on.

use vstd::prelude::*;

verus! {

/// BPF filesystem pin path of the signal ring buffers.
pub const EVENTS_PIN: &'static str = "/sys/fs/bpf/cyber_signals";

/// Stable numeric identifier of the deny-list map.
pub const DENY_MAP_ID: u32 = 1;

} // verus!
