//! The life of a flow, and the modes in which the engine may act on it.

use vstd::prelude::*;

verus! {

/// Where a flow stands.
#[derive(Clone, Copy, Debug, PartialEq, Eq, Structural)]
pub enum FlowState {
    New,
    Established,
    Suspicious,
    Blocked,
    Honeypotted,
    Expired,
}

impl FlowState {
    /// The states that may follow `self`.
    pub open spec fn successors(self) -> Seq<FlowState> {
        match self {
            FlowState::New => seq![FlowState::Established, FlowState::Blocked],
            FlowState::Established => seq![FlowState::Suspicious, FlowState::Expired],
            FlowState::Suspicious => seq![
                FlowState::Blocked,
                FlowState::Honeypotted,
                FlowState::Expired,
            ],
            FlowState::Blocked => seq![FlowState::Expired],
            FlowState::Honeypotted => seq![FlowState::Expired],
            FlowState::Expired => seq![],
        }
    }

    /// The states that may follow `self`.
    pub fn valid_transitions(&self) -> (next: &'static [FlowState])
        ensures
            next@ == self.successors(),
    {
        match self {
            FlowState::New => &[FlowState::Established, FlowState::Blocked],
            FlowState::Established => &[FlowState::Suspicious, FlowState::Expired],
            FlowState::Suspicious => &[
                FlowState::Blocked,
                FlowState::Honeypotted,
                FlowState::Expired,
            ],
            FlowState::Blocked => &[FlowState::Expired],
            FlowState::Honeypotted => &[FlowState::Expired],
            FlowState::Expired => &[],
        }
    }
}

/// An expired flow stays expired: no state follows it.
pub proof fn expired_is_terminal(next: FlowState)
    ensures
        !FlowState::Expired.successors().contains(next),
{
}

/// How each state is reached: only a new flow becomes established, only an
/// established one suspicious, only a suspicious one is sent to the honeypot;
/// a new or a suspicious flow may be blocked; every flow but a new one may
/// expire, once. No flow becomes new again, and no state is named twice.
pub proof fn states_are_reached_only_from(
    from: FlowState,
    next: &'static [FlowState],
    to: FlowState,
)
    requires
        call_ensures(FlowState::valid_transitions, (&from,), next),
    ensures
        next@.contains(to) <==> match to {
            FlowState::New => false,
            FlowState::Established => from == FlowState::New,
            FlowState::Suspicious => from == FlowState::Established,
            FlowState::Honeypotted => from == FlowState::Suspicious,
            FlowState::Blocked => from == FlowState::New || from == FlowState::Suspicious,
            FlowState::Expired => from != FlowState::New && from != FlowState::Expired,
        },
        next@.no_duplicates(),
{
    match from {
        FlowState::New => {
            assert(next@[0] == FlowState::Established && next@[1] == FlowState::Blocked);
        },
        FlowState::Established => {
            assert(next@[0] == FlowState::Suspicious && next@[1] == FlowState::Expired);
        },
        FlowState::Suspicious => {
            assert(next@[0] == FlowState::Blocked && next@[1] == FlowState::Honeypotted && next@[2]
                == FlowState::Expired);
        },
        FlowState::Blocked => {
            assert(next@[0] == FlowState::Expired);
        },
        FlowState::Honeypotted => {
            assert(next@[0] == FlowState::Expired);
        },
        FlowState::Expired => {},
    }
}

/// How far the engine may act on its own.
#[derive(Clone, Copy, Debug, PartialEq, Eq, Structural)]
pub enum OperatingMode {
    /// Confirmed threats trigger a response.
    Automatic,
    /// Alerts only; a human approves every action.
    SemiManual,
    /// No action at all; maximum logging.
    KillSwitch,
}

} // verus!
