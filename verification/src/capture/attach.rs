//! Bringing the signal probe up, and taking it down.
//!
//! Each step is an attempt that the caller makes; what comes next depends on
//! whether it succeeded.

use vstd::prelude::*;

verus! {

/// Why the signal probe is not up.
#[derive(Clone, Copy, Debug, PartialEq, Eq, Structural)]
pub enum AttachError {
    ObjectMissing,
    ObjectUnreadable,
    ObjectRejected,
    ProgramMissing,
    NotAnInterfaceProgram,
    ProgramRejected,
    NotAttached,
    RingMissing,
    NotARing,
}

/// Bringing the signal probe up.
#[derive(Clone, Copy, Debug, PartialEq, Eq, Structural)]
pub enum AttachStep {
    /// See whether the object file is there.
    FindObject,
    /// Read it.
    ReadObject,
    /// Load it.
    ParseObject,
    /// Start the probe's logger, which may fail.
    StartLogger,
    /// Find the program in the object.
    FindProgram,
    /// Check that it is an interface program.
    CheckProgram,
    /// Load it into the kernel.
    LoadProgram,
    /// Attach it in the driver's own mode.
    AttachNative,
    /// Attach it in the generic mode.
    AttachGeneric,
    /// Take the signal ring out of the object.
    TakeRing,
    /// Open the signal ring.
    OpenRing,
    /// The probe is up.
    Live,
    /// It is not.
    Failed(AttachError),
}

/// Why the probe may still be on the interface.
#[derive(Clone, Copy, Debug, PartialEq, Eq, Structural)]
pub enum DetachError {
    ProgramMissing,
    NotAnInterfaceProgram,
    NotDetached,
}

/// Taking the signal probe down.
#[derive(Clone, Copy, Debug, PartialEq, Eq, Structural)]
pub enum DetachStep {
    /// Find the program in the object.
    FindProgram,
    /// Check that it is an interface program.
    CheckProgram,
    /// Detach it.
    Detach,
    /// The interface is as it was.
    Restored,
    /// It may not be.
    Failed(DetachError),
}

/// `next` on success, and the end with `error` otherwise.
pub open spec fn or_fail(succeeded: bool, next: AttachStep, error: AttachError) -> AttachStep {
    if succeeded {
        next
    } else {
        AttachStep::Failed(error)
    }
}

impl AttachStep {
    /// The step after this one.
    pub open spec fn next(self, succeeded: bool) -> AttachStep {
        match self {
            AttachStep::FindObject => or_fail(
                succeeded,
                AttachStep::ReadObject,
                AttachError::ObjectMissing,
            ),
            AttachStep::ReadObject => or_fail(
                succeeded,
                AttachStep::ParseObject,
                AttachError::ObjectUnreadable,
            ),
            AttachStep::ParseObject => or_fail(
                succeeded,
                AttachStep::StartLogger,
                AttachError::ObjectRejected,
            ),
            AttachStep::StartLogger => AttachStep::FindProgram,
            AttachStep::FindProgram => or_fail(
                succeeded,
                AttachStep::CheckProgram,
                AttachError::ProgramMissing,
            ),
            AttachStep::CheckProgram => or_fail(
                succeeded,
                AttachStep::LoadProgram,
                AttachError::NotAnInterfaceProgram,
            ),
            AttachStep::LoadProgram => or_fail(
                succeeded,
                AttachStep::AttachNative,
                AttachError::ProgramRejected,
            ),
            AttachStep::AttachNative => if succeeded {
                AttachStep::TakeRing
            } else {
                AttachStep::AttachGeneric
            },
            AttachStep::AttachGeneric => or_fail(
                succeeded,
                AttachStep::TakeRing,
                AttachError::NotAttached,
            ),
            AttachStep::TakeRing => or_fail(
                succeeded,
                AttachStep::OpenRing,
                AttachError::RingMissing,
            ),
            AttachStep::OpenRing => or_fail(succeeded, AttachStep::Live, AttachError::NotARing),
            AttachStep::Live => self,
            AttachStep::Failed(_) => self,
        }
    }

    /// How many steps are left at most.
    pub open spec fn left(self) -> nat {
        match self {
            AttachStep::FindObject => 11,
            AttachStep::ReadObject => 10,
            AttachStep::ParseObject => 9,
            AttachStep::StartLogger => 8,
            AttachStep::FindProgram => 7,
            AttachStep::CheckProgram => 6,
            AttachStep::LoadProgram => 5,
            AttachStep::AttachNative => 4,
            AttachStep::AttachGeneric => 3,
            AttachStep::TakeRing => 2,
            AttachStep::OpenRing => 1,
            AttachStep::Live => 0,
            AttachStep::Failed(_) => 0,
        }
    }

    /// Where the steps lead, if `works` says which attempts succeed.
    pub open spec fn outcome(self, works: spec_fn(AttachStep) -> bool) -> AttachStep
        decreases self.left(),
    {
        if self.left() == 0 {
            self
        } else {
            self.next(works(self)).outcome(works)
        }
    }

    /// Takes the outcome of this step's attempt.
    pub fn after(self, succeeded: bool) -> (next: AttachStep)
        ensures
            next == self.next(succeeded),
    {
        match self {
            AttachStep::FindObject => if succeeded {
                AttachStep::ReadObject
            } else {
                AttachStep::Failed(AttachError::ObjectMissing)
            },
            AttachStep::ReadObject => if succeeded {
                AttachStep::ParseObject
            } else {
                AttachStep::Failed(AttachError::ObjectUnreadable)
            },
            AttachStep::ParseObject => if succeeded {
                AttachStep::StartLogger
            } else {
                AttachStep::Failed(AttachError::ObjectRejected)
            },
            AttachStep::StartLogger => AttachStep::FindProgram,
            AttachStep::FindProgram => if succeeded {
                AttachStep::CheckProgram
            } else {
                AttachStep::Failed(AttachError::ProgramMissing)
            },
            AttachStep::CheckProgram => if succeeded {
                AttachStep::LoadProgram
            } else {
                AttachStep::Failed(AttachError::NotAnInterfaceProgram)
            },
            AttachStep::LoadProgram => if succeeded {
                AttachStep::AttachNative
            } else {
                AttachStep::Failed(AttachError::ProgramRejected)
            },
            AttachStep::AttachNative => if succeeded {
                AttachStep::TakeRing
            } else {
                AttachStep::AttachGeneric
            },
            AttachStep::AttachGeneric => if succeeded {
                AttachStep::TakeRing
            } else {
                AttachStep::Failed(AttachError::NotAttached)
            },
            AttachStep::TakeRing => if succeeded {
                AttachStep::OpenRing
            } else {
                AttachStep::Failed(AttachError::RingMissing)
            },
            AttachStep::OpenRing => if succeeded {
                AttachStep::Live
            } else {
                AttachStep::Failed(AttachError::NotARing)
            },
            AttachStep::Live => AttachStep::Live,
            AttachStep::Failed(error) => AttachStep::Failed(error),
        }
    }
}

impl DetachStep {
    /// The step after this one.
    pub open spec fn next(self, succeeded: bool) -> DetachStep {
        match self {
            DetachStep::FindProgram => if succeeded {
                DetachStep::CheckProgram
            } else {
                DetachStep::Failed(DetachError::ProgramMissing)
            },
            DetachStep::CheckProgram => if succeeded {
                DetachStep::Detach
            } else {
                DetachStep::Failed(DetachError::NotAnInterfaceProgram)
            },
            DetachStep::Detach => if succeeded {
                DetachStep::Restored
            } else {
                DetachStep::Failed(DetachError::NotDetached)
            },
            DetachStep::Restored => self,
            DetachStep::Failed(_) => self,
        }
    }

    /// Takes the outcome of this step's attempt.
    pub fn after(self, succeeded: bool) -> (next: DetachStep)
        ensures
            next == self.next(succeeded),
    {
        match self {
            DetachStep::FindProgram => if succeeded {
                DetachStep::CheckProgram
            } else {
                DetachStep::Failed(DetachError::ProgramMissing)
            },
            DetachStep::CheckProgram => if succeeded {
                DetachStep::Detach
            } else {
                DetachStep::Failed(DetachError::NotAnInterfaceProgram)
            },
            DetachStep::Detach => if succeeded {
                DetachStep::Restored
            } else {
                DetachStep::Failed(DetachError::NotDetached)
            },
            DetachStep::Restored => DetachStep::Restored,
            DetachStep::Failed(error) => DetachStep::Failed(error),
        }
    }
}

/// What keeps the signal probe from coming up, if `works` says which attempts
/// succeed; `None` if nothing does.
pub open spec fn attach_fault(works: spec_fn(AttachStep) -> bool) -> Option<AttachError> {
    if !works(AttachStep::FindObject) {
        Some(AttachError::ObjectMissing)
    } else if !works(AttachStep::ReadObject) {
        Some(AttachError::ObjectUnreadable)
    } else if !works(AttachStep::ParseObject) {
        Some(AttachError::ObjectRejected)
    } else if !works(AttachStep::FindProgram) {
        Some(AttachError::ProgramMissing)
    } else if !works(AttachStep::CheckProgram) {
        Some(AttachError::NotAnInterfaceProgram)
    } else if !works(AttachStep::LoadProgram) {
        Some(AttachError::ProgramRejected)
    } else if !works(AttachStep::AttachNative) && !works(AttachStep::AttachGeneric) {
        Some(AttachError::NotAttached)
    } else if !works(AttachStep::TakeRing) {
        Some(AttachError::RingMissing)
    } else if !works(AttachStep::OpenRing) {
        Some(AttachError::NotARing)
    } else {
        None
    }
}

/// The signal probe comes up exactly if every attempt succeeds but the
/// logger's, which never matters, and one of the two attachments, of which
/// either will do. Otherwise bringing it up ends in the error of the first
/// attempt that fails.
pub proof fn signal_probe_comes_up_iff(works: spec_fn(AttachStep) -> bool)
    ensures
        AttachStep::FindObject.outcome(works) == match attach_fault(works) {
            None => AttachStep::Live,
            Some(error) => AttachStep::Failed(error),
        },
{
    reveal_with_fuel(AttachStep::outcome, 12);
}

/// Following the steps that bring the signal probe up, whatever each attempt
/// comes to, ends after at most eleven attempts: with the probe up exactly if
/// nothing keeps it from coming up, and otherwise in the error of the first
/// attempt that fails.
pub proof fn attach_steps_lead_to_the_end(steps: Seq<AttachStep>, works: spec_fn(AttachStep) -> bool)
    requires
        steps.len() == 12,
        steps[0] == AttachStep::FindObject,
        forall|k: int|
            0 <= k < 11 ==> call_ensures(
                AttachStep::after,
                (#[trigger] steps[k], works(steps[k])),
                steps[k + 1],
            ),
    ensures
        steps[11] == match attach_fault(works) {
            None => AttachStep::Live,
            Some(error) => AttachStep::Failed(error),
        },
{
    steps_keep_the_outcome(steps, works, 11);
    signal_probe_comes_up_iff(works);
}

proof fn steps_keep_the_outcome(
    steps: Seq<AttachStep>,
    works: spec_fn(AttachStep) -> bool,
    k: nat,
)
    requires
        k < steps.len() <= 12,
        steps[0] == AttachStep::FindObject,
        forall|j: int|
            0 <= j < steps.len() - 1 ==> call_ensures(
                AttachStep::after,
                (#[trigger] steps[j], works(steps[j])),
                steps[j + 1],
            ),
    ensures
        steps[k as int].outcome(works) == AttachStep::FindObject.outcome(works),
        steps[k as int].left() <= 11 - k,
    decreases k,
{
    if k > 0 {
        let before = steps[k - 1];
        steps_keep_the_outcome(steps, works, (k - 1) as nat);
        assert(call_ensures(AttachStep::after, (before, works(before)), steps[k as int]));
        reveal_with_fuel(AttachStep::outcome, 2);
    }
}

/// Following the steps that take the signal probe down ends after at most
/// three attempts: with the interface as it was exactly if the program is
/// found, of its type and detached, and otherwise in the error of the first of
/// these that fails.
pub proof fn detach_steps_lead_to_the_end(steps: Seq<DetachStep>, works: spec_fn(DetachStep) -> bool)
    requires
        steps.len() == 4,
        steps[0] == DetachStep::FindProgram,
        forall|k: int|
            0 <= k < 3 ==> call_ensures(
                DetachStep::after,
                (#[trigger] steps[k], works(steps[k])),
                steps[k + 1],
            ),
    ensures
        steps[3] == if !works(DetachStep::FindProgram) {
            DetachStep::Failed(DetachError::ProgramMissing)
        } else if !works(DetachStep::CheckProgram) {
            DetachStep::Failed(DetachError::NotAnInterfaceProgram)
        } else if !works(DetachStep::Detach) {
            DetachStep::Failed(DetachError::NotDetached)
        } else {
            DetachStep::Restored
        },
{
    assert(call_ensures(DetachStep::after, (steps[0], works(steps[0])), steps[1]));
    assert(call_ensures(DetachStep::after, (steps[1], works(steps[1])), steps[2]));
    assert(call_ensures(DetachStep::after, (steps[2], works(steps[2])), steps[3]));
}

} // verus!
