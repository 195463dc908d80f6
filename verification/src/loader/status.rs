//! Which probes are in place.

use vstd::prelude::*;

verus! {

/// Whether a probe is in place.
#[derive(Clone, Copy, Debug, PartialEq, Eq, Structural)]
pub enum ProbeStatus {
    Attached,
    Degraded,
}

/// The state of every probe.
#[derive(Clone, Copy, Debug)]
pub struct ProbeStatusMap {
    pub packet_ingress: ProbeStatus,
    pub execve_monitor: ProbeStatus,
    pub tcp_fp_probe: ProbeStatus,
}

impl ProbeStatusMap {
    /// Whether any probe is in place.
    #[must_use]
    pub fn any_attached(&self) -> (any: bool)
        ensures
            any == (self.packet_ingress is Attached || self.execve_monitor is Attached
                || self.tcp_fp_probe is Attached),
    {
        self.packet_ingress == ProbeStatus::Attached || self.execve_monitor == ProbeStatus::Attached
            || self.tcp_fp_probe == ProbeStatus::Attached
    }
}

/// There is a probe in place exactly if not all three are degraded.
pub proof fn none_attached_iff_all_degraded(status: ProbeStatusMap, any: bool)
    requires
        call_ensures(ProbeStatusMap::any_attached, (&status,), any),
    ensures
        !any <==> status.packet_ingress == ProbeStatus::Degraded && status.execve_monitor
            == ProbeStatus::Degraded && status.tcp_fp_probe == ProbeStatus::Degraded,
{
}

} // verus!
