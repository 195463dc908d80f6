//! Bringing one probe up, as a sequence of attempts.
//!
//! Each step is an attempt that the caller makes; what comes next depends on
//! whether it succeeded. A probe that cannot be brought up is degraded, not an
//! error.

use vstd::prelude::*;
use super::status::ProbeStatus;

verus! {

/// Bringing up a probe on an interface.
#[derive(Clone, Copy, Debug, PartialEq, Eq, Structural)]
pub enum XdpStep {
    /// Find the program in the loaded object.
    FindProgram,
    /// Check that it is an interface program.
    CheckProgram,
    /// Load it into the kernel.
    LoadProgram,
    /// Attach it in the driver's own mode.
    AttachNative,
    /// Attach it in the generic mode.
    AttachGeneric,
    /// Nothing is left to try.
    Done(ProbeStatus),
}

/// Bringing up a probe on a tracepoint.
#[derive(Clone, Copy, Debug, PartialEq, Eq, Structural)]
pub enum TracepointStep {
    /// Load the probe's object.
    LoadObject,
    /// Find the program in it.
    FindProgram,
    /// Check that it is a tracepoint program.
    CheckProgram,
    /// Load it into the kernel.
    LoadProgram,
    /// Attach it to the tracepoint.
    Attach,
    /// Nothing is left to try.
    Done(ProbeStatus),
}

/// `Attached` or `Degraded`.
pub open spec fn status_if(attached: bool) -> ProbeStatus {
    if attached {
        ProbeStatus::Attached
    } else {
        ProbeStatus::Degraded
    }
}

impl XdpStep {
    /// The step after this one. Only a failed native attachment leaves another
    /// way.
    pub open spec fn next(self, succeeded: bool) -> XdpStep {
        match self {
            XdpStep::FindProgram if succeeded => XdpStep::CheckProgram,
            XdpStep::CheckProgram if succeeded => XdpStep::LoadProgram,
            XdpStep::LoadProgram if succeeded => XdpStep::AttachNative,
            XdpStep::AttachNative if !succeeded => XdpStep::AttachGeneric,
            XdpStep::AttachNative => XdpStep::Done(ProbeStatus::Attached),
            XdpStep::AttachGeneric if succeeded => XdpStep::Done(ProbeStatus::Attached),
            XdpStep::Done(status) => XdpStep::Done(status),
            _ => XdpStep::Done(ProbeStatus::Degraded),
        }
    }

    /// How many steps are left at most.
    pub open spec fn left(self) -> nat {
        match self {
            XdpStep::FindProgram => 5,
            XdpStep::CheckProgram => 4,
            XdpStep::LoadProgram => 3,
            XdpStep::AttachNative => 2,
            XdpStep::AttachGeneric => 1,
            XdpStep::Done(_) => 0,
        }
    }

    /// Where the steps lead, if `works` says which attempts succeed.
    pub open spec fn outcome(self, works: spec_fn(XdpStep) -> bool) -> ProbeStatus
        decreases self.left(),
    {
        match self {
            XdpStep::Done(status) => status,
            step => step.next(works(step)).outcome(works),
        }
    }

    /// Takes the outcome of this step's attempt.
    pub fn after(self, succeeded: bool) -> (next: XdpStep)
        ensures
            next == self.next(succeeded),
    {
        match self {
            XdpStep::FindProgram => if succeeded {
                XdpStep::CheckProgram
            } else {
                XdpStep::Done(ProbeStatus::Degraded)
            },
            XdpStep::CheckProgram => if succeeded {
                XdpStep::LoadProgram
            } else {
                XdpStep::Done(ProbeStatus::Degraded)
            },
            XdpStep::LoadProgram => if succeeded {
                XdpStep::AttachNative
            } else {
                XdpStep::Done(ProbeStatus::Degraded)
            },
            XdpStep::AttachNative => if succeeded {
                XdpStep::Done(ProbeStatus::Attached)
            } else {
                XdpStep::AttachGeneric
            },
            XdpStep::AttachGeneric => if succeeded {
                XdpStep::Done(ProbeStatus::Attached)
            } else {
                XdpStep::Done(ProbeStatus::Degraded)
            },
            XdpStep::Done(status) => XdpStep::Done(status),
        }
    }
}

impl TracepointStep {
    /// The step after this one.
    pub open spec fn next(self, succeeded: bool) -> TracepointStep {
        match self {
            TracepointStep::LoadObject if succeeded => TracepointStep::FindProgram,
            TracepointStep::FindProgram if succeeded => TracepointStep::CheckProgram,
            TracepointStep::CheckProgram if succeeded => TracepointStep::LoadProgram,
            TracepointStep::LoadProgram if succeeded => TracepointStep::Attach,
            TracepointStep::Attach if succeeded => TracepointStep::Done(ProbeStatus::Attached),
            TracepointStep::Done(status) => TracepointStep::Done(status),
            _ => TracepointStep::Done(ProbeStatus::Degraded),
        }
    }

    /// How many steps are left at most.
    pub open spec fn left(self) -> nat {
        match self {
            TracepointStep::LoadObject => 5,
            TracepointStep::FindProgram => 4,
            TracepointStep::CheckProgram => 3,
            TracepointStep::LoadProgram => 2,
            TracepointStep::Attach => 1,
            TracepointStep::Done(_) => 0,
        }
    }

    /// Where the steps lead, if `works` says which attempts succeed.
    pub open spec fn outcome(self, works: spec_fn(TracepointStep) -> bool) -> ProbeStatus
        decreases self.left(),
    {
        match self {
            TracepointStep::Done(status) => status,
            step => step.next(works(step)).outcome(works),
        }
    }

    /// Takes the outcome of this step's attempt.
    pub fn after(self, succeeded: bool) -> (next: TracepointStep)
        ensures
            next == self.next(succeeded),
    {
        match self {
            TracepointStep::Done(status) => TracepointStep::Done(status),
            _ if !succeeded => TracepointStep::Done(ProbeStatus::Degraded),
            TracepointStep::LoadObject => TracepointStep::FindProgram,
            TracepointStep::FindProgram => TracepointStep::CheckProgram,
            TracepointStep::CheckProgram => TracepointStep::LoadProgram,
            TracepointStep::LoadProgram => TracepointStep::Attach,
            TracepointStep::Attach => TracepointStep::Done(ProbeStatus::Attached),
        }
    }
}

/// An interface probe is attached exactly if it is found, of its type and
/// loaded, and one of the two modes takes it.
pub proof fn interface_probe_is_attached_iff(works: spec_fn(XdpStep) -> bool)
    ensures
        XdpStep::FindProgram.outcome(works) == status_if(
            works(XdpStep::FindProgram) && works(XdpStep::CheckProgram) && works(
                XdpStep::LoadProgram,
            ) && (works(XdpStep::AttachNative) || works(XdpStep::AttachGeneric)),
        ),
{
    reveal_with_fuel(XdpStep::outcome, 6);
}

/// A tracepoint probe is attached exactly if every attempt succeeds.
pub proof fn tracepoint_probe_is_attached_iff(works: spec_fn(TracepointStep) -> bool)
    ensures
        TracepointStep::LoadObject.outcome(works) == status_if(
            works(TracepointStep::LoadObject) && works(TracepointStep::FindProgram) && works(
                TracepointStep::CheckProgram,
            ) && works(TracepointStep::LoadProgram) && works(TracepointStep::Attach),
        ),
{
    reveal_with_fuel(TracepointStep::outcome, 6);
}

/// Following the steps of an interface probe, whatever each attempt comes to,
/// ends after at most five attempts; it ends attached exactly if the probe is
/// found, of its type and loaded, and one of the two modes takes it.
pub proof fn interface_steps_lead_to_the_end(steps: Seq<XdpStep>, works: spec_fn(XdpStep) -> bool)
    requires
        steps.len() == 6,
        steps[0] == XdpStep::FindProgram,
        forall|k: int|
            0 <= k < 5 ==> call_ensures(
                XdpStep::after,
                (#[trigger] steps[k], works(steps[k])),
                steps[k + 1],
            ),
    ensures
        steps[5] == XdpStep::Done(
            if works(XdpStep::FindProgram) && works(XdpStep::CheckProgram) && works(
                XdpStep::LoadProgram,
            ) && (works(XdpStep::AttachNative) || works(XdpStep::AttachGeneric)) {
                ProbeStatus::Attached
            } else {
                ProbeStatus::Degraded
            },
        ),
{
    assert(call_ensures(XdpStep::after, (steps[0], works(steps[0])), steps[1]));
    assert(call_ensures(XdpStep::after, (steps[1], works(steps[1])), steps[2]));
    assert(call_ensures(XdpStep::after, (steps[2], works(steps[2])), steps[3]));
    assert(call_ensures(XdpStep::after, (steps[3], works(steps[3])), steps[4]));
    assert(call_ensures(XdpStep::after, (steps[4], works(steps[4])), steps[5]));
}

/// Following the steps of a tracepoint probe, whatever each attempt comes to,
/// ends after at most five attempts; it ends attached exactly if every attempt
/// succeeds.
pub proof fn tracepoint_steps_lead_to_the_end(
    steps: Seq<TracepointStep>,
    works: spec_fn(TracepointStep) -> bool,
)
    requires
        steps.len() == 6,
        steps[0] == TracepointStep::LoadObject,
        forall|k: int|
            0 <= k < 5 ==> call_ensures(
                TracepointStep::after,
                (#[trigger] steps[k], works(steps[k])),
                steps[k + 1],
            ),
    ensures
        steps[5] == TracepointStep::Done(
            if works(TracepointStep::LoadObject) && works(TracepointStep::FindProgram) && works(
                TracepointStep::CheckProgram,
            ) && works(TracepointStep::LoadProgram) && works(TracepointStep::Attach) {
                ProbeStatus::Attached
            } else {
                ProbeStatus::Degraded
            },
        ),
{
    assert(call_ensures(TracepointStep::after, (steps[0], works(steps[0])), steps[1]));
    assert(call_ensures(TracepointStep::after, (steps[1], works(steps[1])), steps[2]));
    assert(call_ensures(TracepointStep::after, (steps[2], works(steps[2])), steps[3]));
    assert(call_ensures(TracepointStep::after, (steps[3], works(steps[3])), steps[4]));
    assert(call_ensures(TracepointStep::after, (steps[4], works(steps[4])), steps[5]));
}

} // verus!
