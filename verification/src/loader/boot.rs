//! Bringing the tracing data path up.
//!
//! The boot is a sequence of attempts that the caller makes.
//! [`Boot::check_capabilities`] takes the verdict on the privileges, and
//! [`Boot::advance`] the outcome of every later attempt. Without privileges, the packet
//! probe's object, the event ring or one of the maps there is no data path. A
//! single probe may fail, but not all of them.

use vstd::prelude::*;
use crate::common::ready_flag::ReadyFlag;
use super::attach;
use super::attach::{TracepointStep, XdpStep};
use super::caps::CapabilityError;
use super::status::{ProbeStatus, ProbeStatusMap};

verus! {

/// A map that the loader takes over from the packet probe.
#[derive(Clone, Copy, Debug, PartialEq, Eq, Structural)]
pub enum MapName {
    Deny,
    ScanFlag,
    Fingerprint,
}

impl MapName {
    /// The map's name in the probe's object.
    pub fn as_str(self) -> (name: &'static str)
        ensures
            name@ == (match self {
                MapName::Deny => "DENY_MAP"@,
                MapName::ScanFlag => "SCAN_FLAG_MAP"@,
                MapName::Fingerprint => "FINGERPRINT_MAP"@,
            }),
    {
        match self {
            MapName::Deny => "DENY_MAP",
            MapName::ScanFlag => "SCAN_FLAG_MAP",
            MapName::Fingerprint => "FINGERPRINT_MAP",
        }
    }
}

/// What is wrong with a map.
#[derive(Clone, Copy, Debug, PartialEq, Eq, Structural)]
pub enum MapError {
    /// The object has no such map.
    NotFound { name: MapName },
    /// The map is there but cannot be used.
    Operation { name: MapName },
}

/// What is wrong with the event ring.
#[derive(Clone, Copy, Debug, PartialEq, Eq, Structural)]
pub enum RingFault {
    /// The object has no such map.
    NotFound,
    /// The map is not a ring.
    NotARing,
}

/// Why there is no data path.
#[derive(Debug)]
pub enum LoadError {
    /// A privilege is missing, or could not be checked.
    Capabilities(CapabilityError),
    /// No probe could be attached.
    AllProbesFailed,
    /// The packet probe's object could not be loaded.
    PrimaryLoadFailed,
    /// The event ring could not be opened.
    RingbufFailed(RingFault),
    /// A map could not be taken over.
    MapSetup(MapError),
}

/// The attempt that the boot asks for.
#[derive(Debug)]
pub enum BootStep {
    /// Check the privileges.
    Capabilities,
    /// Load the packet probe's object.
    LoadPrimary,
    /// Bring up the packet probe.
    Ingress(XdpStep),
    /// Start the probes' logger, which may fail.
    Logger,
    /// Bring up the system-call probe.
    Execve(TracepointStep),
    /// Take the event ring out of the object.
    TakeEventRing,
    /// Open the event ring.
    OpenEventRing,
    /// Take a map out of the object.
    TakeMap(MapName),
    /// Open a map.
    OpenMap(MapName),
    /// The data path is up.
    Live,
    /// There is no data path.
    Failed(LoadError),
}

/// A boot in progress.
#[derive(Debug)]
pub struct Boot {
    /// The next attempt.
    pub step: BootStep,
    /// The packet probe's state, once it is known.
    pub ingress: ProbeStatus,
    /// The system-call probe's state, once it is known.
    pub execve: ProbeStatus,
}

/// The step behind the map `name`.
pub open spec fn step_behind(name: MapName) -> BootStep {
    match name {
        MapName::Deny => BootStep::TakeMap(MapName::ScanFlag),
        MapName::ScanFlag => BootStep::TakeMap(MapName::Fingerprint),
        MapName::Fingerprint => BootStep::Live,
    }
}

/// `next` on success, and the end with `error` otherwise.
pub open spec fn or_fail(succeeded: bool, next: BootStep, error: LoadError) -> BootStep {
    if succeeded {
        next
    } else {
        BootStep::Failed(error)
    }
}

impl Boot {
    /// The boot after the privileges have been judged.
    pub open spec fn checked(self, verdict: Result<(), CapabilityError>) -> Boot {
        Boot {
            step: match verdict {
                Ok(_) => BootStep::LoadPrimary,
                Err(e) => BootStep::Failed(LoadError::Capabilities(e)),
            },
            ..self
        }
    }

    /// The boot after an attempt.
    pub open spec fn advanced(self, succeeded: bool) -> Boot {
        match self.step {
            BootStep::Capabilities => self,
            BootStep::LoadPrimary => Boot {
                step: or_fail(
                    succeeded,
                    BootStep::Ingress(XdpStep::FindProgram),
                    LoadError::PrimaryLoadFailed,
                ),
                ..self
            },
            BootStep::Ingress(step) => match step.next(succeeded) {
                XdpStep::Done(status) => Boot { step: BootStep::Logger, ingress: status, ..self },
                next => Boot { step: BootStep::Ingress(next), ..self },
            },
            BootStep::Logger => Boot { step: BootStep::Execve(TracepointStep::LoadObject), ..self },
            BootStep::Execve(step) => match step.next(succeeded) {
                TracepointStep::Done(status) => Boot {
                    step: or_fail(
                        self.ingress is Attached || status is Attached,
                        BootStep::TakeEventRing,
                        LoadError::AllProbesFailed,
                    ),
                    execve: status,
                    ..self
                },
                next => Boot { step: BootStep::Execve(next), ..self },
            },
            BootStep::TakeEventRing => Boot {
                step: or_fail(
                    succeeded,
                    BootStep::OpenEventRing,
                    LoadError::RingbufFailed(RingFault::NotFound),
                ),
                ..self
            },
            BootStep::OpenEventRing => Boot {
                step: or_fail(
                    succeeded,
                    BootStep::TakeMap(MapName::Deny),
                    LoadError::RingbufFailed(RingFault::NotARing),
                ),
                ..self
            },
            BootStep::TakeMap(name) => Boot {
                step: or_fail(
                    succeeded,
                    BootStep::OpenMap(name),
                    LoadError::MapSetup(MapError::NotFound { name }),
                ),
                ..self
            },
            BootStep::OpenMap(name) => Boot {
                step: or_fail(
                    succeeded,
                    step_behind(name),
                    LoadError::MapSetup(MapError::Operation { name }),
                ),
                ..self
            },
            BootStep::Live => self,
            BootStep::Failed(_) => self,
        }
    }

    /// How many attempts are left at most.
    pub open spec fn left(self) -> nat {
        match self.step {
            BootStep::Capabilities => 22,
            BootStep::LoadPrimary => 21,
            BootStep::Ingress(step) => 15 + step.left(),
            BootStep::Logger => 14,
            BootStep::Execve(step) => 8 + step.left(),
            BootStep::TakeEventRing => 8,
            BootStep::OpenEventRing => 7,
            BootStep::TakeMap(MapName::Deny) => 6,
            BootStep::OpenMap(MapName::Deny) => 5,
            BootStep::TakeMap(MapName::ScanFlag) => 4,
            BootStep::OpenMap(MapName::ScanFlag) => 3,
            BootStep::TakeMap(MapName::Fingerprint) => 2,
            BootStep::OpenMap(MapName::Fingerprint) => 1,
            BootStep::Live => 0,
            BootStep::Failed(_) => 0,
        }
    }

    /// The boot is under way: the probes' own steps are not over.
    pub open spec fn wf(self) -> bool {
        &&& self.step matches BootStep::Ingress(step) ==> !(step is Done)
        &&& self.step matches BootStep::Execve(step) ==> !(step is Done)
    }

    /// Where the boot leads once the privileges have been judged, if `works`
    /// says which attempts succeed.
    pub open spec fn finished(self, works: spec_fn(BootStep) -> bool) -> Boot
        decreases self.left(),
        when self.wf() && !(self.step is Capabilities)
    {
        if self.left() == 0 {
            self
        } else {
            self.advanced(works(self.step)).finished(works)
        }
    }

    /// A boot at its beginning.
    pub fn new() -> (boot: Boot)
        ensures
            boot.wf(),
            boot.step == BootStep::Capabilities,
            boot.ingress == ProbeStatus::Degraded,
            boot.execve == ProbeStatus::Degraded,
    {
        Boot {
            step: BootStep::Capabilities,
            ingress: ProbeStatus::Degraded,
            execve: ProbeStatus::Degraded,
        }
    }

    /// Takes the verdict on the privileges. A refusal ends the boot with that
    /// very error, before anything is loaded or attached.
    pub fn check_capabilities(&mut self, verdict: Result<(), CapabilityError>)
        requires
            old(self).step is Capabilities,
        ensures
            final(self).wf(),
            *final(self) == old(self).checked(verdict),
    {
        self.step = match verdict {
            Ok(_) => BootStep::LoadPrimary,
            Err(e) => BootStep::Failed(LoadError::Capabilities(e)),
        };
    }

    /// Takes the outcome of the current attempt. The flag is raised when the
    /// data path comes up, and not otherwise touched.
    pub fn advance(&mut self, succeeded: bool, ready: &mut ReadyFlag)
        requires
            old(self).wf(),
            !(old(self).step is Capabilities),
        ensures
            final(self).wf(),
            !(final(self).step is Capabilities),
            *final(self) == old(self).advanced(succeeded),
            final(self).left() <= old(self).left(),
            old(self).left() > 0 ==> final(self).left() < old(self).left(),
            final(ready)@ == (old(ready)@ || (final(self).step is Live && !(old(
                self,
            ).step is Live))),
    {
        match self.step {
            BootStep::Capabilities => {},
            BootStep::LoadPrimary => {
                self.step = if succeeded {
                    BootStep::Ingress(XdpStep::FindProgram)
                } else {
                    BootStep::Failed(LoadError::PrimaryLoadFailed)
                };
            },
            BootStep::Ingress(step) => match step.after(succeeded) {
                XdpStep::Done(status) => {
                    self.ingress = status;
                    self.step = BootStep::Logger;
                },
                next => {
                    self.step = BootStep::Ingress(next);
                },
            },
            BootStep::Logger => {
                self.step = BootStep::Execve(TracepointStep::LoadObject);
            },
            BootStep::Execve(step) => match step.after(succeeded) {
                TracepointStep::Done(status) => {
                    self.execve = status;
                    self.step = if self.probe_status().any_attached() {
                        BootStep::TakeEventRing
                    } else {
                        BootStep::Failed(LoadError::AllProbesFailed)
                    };
                },
                next => {
                    self.step = BootStep::Execve(next);
                },
            },
            BootStep::TakeEventRing => {
                self.step = if succeeded {
                    BootStep::OpenEventRing
                } else {
                    BootStep::Failed(LoadError::RingbufFailed(RingFault::NotFound))
                };
            },
            BootStep::OpenEventRing => {
                self.step = if succeeded {
                    BootStep::TakeMap(MapName::Deny)
                } else {
                    BootStep::Failed(LoadError::RingbufFailed(RingFault::NotARing))
                };
            },
            BootStep::TakeMap(name) => {
                self.step = if succeeded {
                    BootStep::OpenMap(name)
                } else {
                    BootStep::Failed(LoadError::MapSetup(MapError::NotFound { name }))
                };
            },
            BootStep::OpenMap(name) => {
                if succeeded {
                    match name {
                        MapName::Deny => {
                            self.step = BootStep::TakeMap(MapName::ScanFlag);
                        },
                        MapName::ScanFlag => {
                            self.step = BootStep::TakeMap(MapName::Fingerprint);
                        },
                        MapName::Fingerprint => {
                            self.step = BootStep::Live;
                            ready.signal();
                        },
                    }
                } else {
                    self.step = BootStep::Failed(LoadError::MapSetup(MapError::Operation { name }));
                }
            },
            BootStep::Live => {},
            BootStep::Failed(_) => {},
        }
    }

    /// The probes' states so far. The fingerprint probe is never attached: it
    /// would take the packet probe's place on the interface.
    pub fn probe_status(&self) -> (status: ProbeStatusMap)
        ensures
            status.packet_ingress == self.ingress,
            status.execve_monitor == self.execve,
            status.tcp_fp_probe == ProbeStatus::Degraded,
    {
        ProbeStatusMap {
            packet_ingress: self.ingress,
            execve_monitor: self.execve,
            tcp_fp_probe: ProbeStatus::Degraded,
        }
    }
}

/// What the packet probe comes to, if `works` says which attempts succeed.
pub open spec fn ingress_outcome(works: spec_fn(BootStep) -> bool) -> ProbeStatus {
    XdpStep::FindProgram.outcome(|step: XdpStep| works(BootStep::Ingress(step)))
}

/// What the system-call probe comes to, if `works` says which attempts succeed.
pub open spec fn execve_outcome(works: spec_fn(BootStep) -> bool) -> ProbeStatus {
    TracepointStep::LoadObject.outcome(|step: TracepointStep| works(BootStep::Execve(step)))
}

/// What is wrong with the first map that cannot be taken over, of the event
/// ring and then the three maps; `None` if all can.
pub open spec fn map_fault(works: spec_fn(BootStep) -> bool) -> Option<LoadError> {
    if !works(BootStep::TakeEventRing) {
        Some(LoadError::RingbufFailed(RingFault::NotFound))
    } else if !works(BootStep::OpenEventRing) {
        Some(LoadError::RingbufFailed(RingFault::NotARing))
    } else if !works(BootStep::TakeMap(MapName::Deny)) {
        Some(LoadError::MapSetup(MapError::NotFound { name: MapName::Deny }))
    } else if !works(BootStep::OpenMap(MapName::Deny)) {
        Some(LoadError::MapSetup(MapError::Operation { name: MapName::Deny }))
    } else if !works(BootStep::TakeMap(MapName::ScanFlag)) {
        Some(LoadError::MapSetup(MapError::NotFound { name: MapName::ScanFlag }))
    } else if !works(BootStep::OpenMap(MapName::ScanFlag)) {
        Some(LoadError::MapSetup(MapError::Operation { name: MapName::ScanFlag }))
    } else if !works(BootStep::TakeMap(MapName::Fingerprint)) {
        Some(LoadError::MapSetup(MapError::NotFound { name: MapName::Fingerprint }))
    } else if !works(BootStep::OpenMap(MapName::Fingerprint)) {
        Some(LoadError::MapSetup(MapError::Operation { name: MapName::Fingerprint }))
    } else {
        None
    }
}

/// What keeps the data path from coming up, given the verdict on the
/// privileges and which attempts succeed; `None` if nothing does.
pub open spec fn boot_fault(
    verdict: Result<(), CapabilityError>,
    works: spec_fn(BootStep) -> bool,
) -> Option<LoadError> {
    match verdict {
        Err(e) => Some(LoadError::Capabilities(e)),
        Ok(_) => if !works(BootStep::LoadPrimary) {
            Some(LoadError::PrimaryLoadFailed)
        } else if !(ingress_outcome(works) is Attached) && !(execve_outcome(works) is Attached) {
            Some(LoadError::AllProbesFailed)
        } else {
            map_fault(works)
        },
    }
}

proof fn ingress_ends(boot: Boot, works: spec_fn(BootStep) -> bool)
    requires
        boot.wf(),
        boot.step is Ingress,
    ensures
        boot.finished(works) == (Boot {
            step: BootStep::Logger,
            ingress: boot.step->Ingress_0.outcome(|step: XdpStep| works(BootStep::Ingress(step))),
            ..boot
        }).finished(works),
    decreases boot.left(),
{
    let step = boot.step->Ingress_0;
    let part = |step: XdpStep| works(BootStep::Ingress(step));
    let next = step.next(works(boot.step));
    assert(part(step) == works(boot.step));
    if next is Done {
        assert(step.outcome(part) == next->Done_0) by {
            reveal_with_fuel(XdpStep::outcome, 2);
        }
    } else {
        ingress_ends(boot.advanced(works(boot.step)), works);
    }
}

proof fn execve_ends(boot: Boot, works: spec_fn(BootStep) -> bool)
    requires
        boot.wf(),
        boot.step is Execve,
    ensures
        ({
            let status = boot.step->Execve_0.outcome(
                |step: TracepointStep| works(BootStep::Execve(step)),
            );
            boot.finished(works) == (Boot {
                step: or_fail(
                    boot.ingress is Attached || status is Attached,
                    BootStep::TakeEventRing,
                    LoadError::AllProbesFailed,
                ),
                execve: status,
                ..boot
            }).finished(works)
        }),
    decreases boot.left(),
{
    let step = boot.step->Execve_0;
    let part = |step: TracepointStep| works(BootStep::Execve(step));
    let next = step.next(works(boot.step));
    assert(part(step) == works(boot.step));
    if next is Done {
        assert(step.outcome(part) == next->Done_0) by {
            reveal_with_fuel(TracepointStep::outcome, 2);
        }
    } else {
        execve_ends(boot.advanced(works(boot.step)), works);
    }
}

/// The data path comes up exactly if the privileges are there, the packet
/// probe's object loads, a probe attaches, and the ring and the maps can be
/// taken over. The logger never matters. Otherwise the boot ends in the error
/// of the first of these that fails; without the privileges, in the very error
/// that their check gave.
pub proof fn data_path_comes_up_iff(
    boot: Boot,
    verdict: Result<(), CapabilityError>,
    works: spec_fn(BootStep) -> bool,
)
    requires
        boot.step is Capabilities,
    ensures
        ({
            let end = boot.checked(verdict).finished(works);
            &&& end.step == match boot_fault(verdict, works) {
                None => BootStep::Live,
                Some(error) => BootStep::Failed(error),
            }
            &&& end.step is Live ==> {
                &&& end.ingress == ingress_outcome(works)
                &&& end.execve == execve_outcome(works)
            }
        }),
{
    let start = boot.checked(verdict);
    reveal_with_fuel(Boot::finished, 3);
    if verdict is Ok && works(BootStep::LoadPrimary) {
        let at_ingress = Boot { step: BootStep::Ingress(XdpStep::FindProgram), ..boot };
        assert(start.finished(works) == at_ingress.finished(works));
        ingress_ends(at_ingress, works);
        let at_execve = Boot {
            step: BootStep::Execve(TracepointStep::LoadObject),
            ingress: ingress_outcome(works),
            ..boot
        };
        assert(start.finished(works) == at_execve.finished(works));
        execve_ends(at_execve, works);
        if ingress_outcome(works) is Attached || execve_outcome(works) is Attached {
            let at_ring = Boot {
                step: BootStep::TakeEventRing,
                execve: execve_outcome(works),
                ..at_execve
            };
            assert(start.finished(works) == at_ring.finished(works));
            assert(at_ring.finished(works) == (Boot {
                step: match map_fault(works) {
                    None => BootStep::Live,
                    Some(error) => BootStep::Failed(error),
                },
                ..at_ring
            })) by {
                reveal_with_fuel(Boot::finished, 9);
            }
        }
    }
}

/// An attempt takes a boot on without changing where it leads, and closer to
/// its end; a boot that is over stays as it is. The ready flag is raised by
/// the attempt that brings the data path up, and by no other.
pub proof fn an_attempt_takes_the_boot_on(
    boot: &mut Boot,
    succeeded: bool,
    ready: &mut ReadyFlag,
    works: spec_fn(BootStep) -> bool,
)
    requires
        old(boot).wf(),
        !(old(boot).step is Capabilities),
        succeeded == works(old(boot).step),
        call_ensures(Boot::advance, (boot, succeeded, ready), ()),
    ensures
        final(boot).wf(),
        final(boot).finished(works) == old(boot).finished(works),
        old(boot).left() > 0 ==> final(boot).left() < old(boot).left(),
        old(boot).left() == 0 ==> *final(boot) == *old(boot),
        final(boot).left() == 0 ==> *final(boot) == old(boot).finished(works),
        final(boot).step is Live && !(old(boot).step is Live) ==> final(ready)@,
        !(final(boot).step is Live && !(old(boot).step is Live)) ==> final(ready)@ == old(ready)@,
{
    reveal_with_fuel(Boot::finished, 2);
}

/// A boot begins with the privileges: without them it is over, with the very
/// error that their check gave, and with them nothing is lost of what follows.
pub proof fn a_boot_begins_with_the_privileges(
    fresh: Boot,
    boot: &mut Boot,
    verdict: Result<(), CapabilityError>,
    works: spec_fn(BootStep) -> bool,
)
    requires
        call_ensures(Boot::new, (), fresh),
        *old(boot) == fresh,
        call_ensures(Boot::check_capabilities, (boot, verdict), ()),
    ensures
        fresh.step is Capabilities,
        verdict matches Err(e) ==> final(boot).step == BootStep::Failed(LoadError::Capabilities(e)),
        verdict is Ok ==> !(final(boot).step is Failed) && !(final(boot).step is Live),
        final(boot).finished(works).step == match boot_fault(verdict, works) {
            None => BootStep::Live,
            Some(error) => BootStep::Failed(error),
        },
        final(boot).finished(works).step is Live ==> {
            let end = final(boot).finished(works);
            &&& end.ingress is Attached <==> ingress_attaches(works)
            &&& end.execve is Attached <==> execve_attaches(works)
        },
{
    data_path_comes_up_iff(fresh, verdict, works);
    attach::interface_probe_is_attached_iff(|step: XdpStep| works(BootStep::Ingress(step)));
    attach::tracepoint_probe_is_attached_iff(|step: TracepointStep| works(BootStep::Execve(step)));
}

/// The packet probe is found, of its type and loaded, and one of the two modes
/// takes it.
pub open spec fn ingress_attaches(works: spec_fn(BootStep) -> bool) -> bool {
    &&& works(BootStep::Ingress(XdpStep::FindProgram))
    &&& works(BootStep::Ingress(XdpStep::CheckProgram))
    &&& works(BootStep::Ingress(XdpStep::LoadProgram))
    &&& works(BootStep::Ingress(XdpStep::AttachNative)) || works(
        BootStep::Ingress(XdpStep::AttachGeneric),
    )
}

/// The system-call probe's object loads, and the probe is found in it, of its
/// type, loaded and attached.
pub open spec fn execve_attaches(works: spec_fn(BootStep) -> bool) -> bool {
    &&& works(BootStep::Execve(TracepointStep::LoadObject))
    &&& works(BootStep::Execve(TracepointStep::FindProgram))
    &&& works(BootStep::Execve(TracepointStep::CheckProgram))
    &&& works(BootStep::Execve(TracepointStep::LoadProgram))
    &&& works(BootStep::Execve(TracepointStep::Attach))
}

/// A boot that gets past the privileges and the packet probe's object ends in
/// the failure of all probes exactly if neither the packet probe nor the
/// system-call probe attaches: either one will do.
pub proof fn one_probe_will_do(boot: Boot, works: spec_fn(BootStep) -> bool)
    requires
        boot.step is Capabilities,
        works(BootStep::LoadPrimary),
    ensures
        boot.checked(Ok(())).finished(works).step == BootStep::Failed(LoadError::AllProbesFailed)
            <==> !ingress_attaches(works) && !execve_attaches(works),
{
    data_path_comes_up_iff(boot, Ok(()), works);
    attach::interface_probe_is_attached_iff(|step: XdpStep| works(BootStep::Ingress(step)));
    attach::tracepoint_probe_is_attached_iff(|step: TracepointStep| works(BootStep::Execve(step)));
}

/// The status of the probes is what the boot found, and the fingerprint probe
/// is never in place. Any probe in place is enough for there to be one.
pub proof fn probe_status_is_what_the_boot_found(boot: Boot, status: ProbeStatusMap, any: bool)
    requires
        call_ensures(Boot::probe_status, (&boot,), status),
        call_ensures(ProbeStatusMap::any_attached, (&status,), any),
    ensures
        status.packet_ingress == boot.ingress,
        status.execve_monitor == boot.execve,
        status.tcp_fp_probe == ProbeStatus::Degraded,
        any <==> boot.ingress is Attached || boot.execve is Attached,
{
}

} // verus!
