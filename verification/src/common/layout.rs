//! Cache-line alignment of the shared records.

use vstd::prelude::*;

verus! {

/// The 512-bit vector register type of `core::arch::x86_64`. Nothing is
/// claimed of its values; it is named for its 64-byte alignment alone.
#[verifier::external_type_specification]
#[verifier::external_body]
pub struct ExVector512(core::arch::x86_64::__m512i);

/// A zero-sized field that raises the alignment of the record that holds it
/// to one cache line (64 bytes).
#[derive(Clone, Copy, Debug)]
pub struct CacheLine {
    lane: [core::arch::x86_64::__m512i; 0],
}

impl CacheLine {
    /// The marker. It carries no data.
    pub fn new() -> (line: CacheLine) {
        CacheLine { lane: [] }
    }
}

/// There is one marker value only, so it never tells two records apart.
pub proof fn cache_line_carries_nothing(a: CacheLine, b: CacheLine)
    ensures
        a == b,
{
    assert(a.lane@ =~= b.lane@);
    assert(a.lane =~= b.lane);
}

impl Default for CacheLine {
    fn default() -> (line: CacheLine) {
        CacheLine::new()
    }
}

impl PartialEq for CacheLine {
    fn eq(&self, other: &CacheLine) -> (same: bool) {
        true
    }
}

impl vstd::std_specs::cmp::PartialEqSpecImpl for CacheLine {
    open spec fn obeys_eq_spec() -> bool {
        true
    }

    open spec fn eq_spec(&self, other: &CacheLine) -> bool {
        true
    }
}

impl Eq for CacheLine {

}

impl core::hash::Hash for CacheLine {
    fn hash<H: core::hash::Hasher>(&self, state: &mut H) {
    }
}

} // verus!
