//! The flag by which the loader tells the engine that the data path is live.

use vstd::prelude::*;

verus! {

/// A one-bit signal: raised by [`ReadyFlag::signal`], consumed by
/// [`ReadyFlag::poll_and_clear`].
#[derive(Debug)]
pub struct ReadyFlag {
    raised: bool,
}

impl View for ReadyFlag {
    type V = bool;

    closed spec fn view(&self) -> bool {
        self.raised
    }
}

impl ReadyFlag {
    /// A flag that starts raised or lowered.
    pub fn new(raised: bool) -> (flag: ReadyFlag)
        ensures
            flag@ == raised,
    {
        ReadyFlag { raised }
    }

    /// Raises the flag.
    pub fn signal(&mut self)
        ensures
            final(self)@,
    {
        self.raised = true;
    }

    /// Whether the flag was raised; lowers it.
    pub fn poll_and_clear(&mut self) -> (was_raised: bool)
        ensures
            was_raised == old(self)@,
            !final(self)@,
    {
        let was_raised: bool = self.raised;
        self.raised = false;
        was_raised
    }
}

/// A flag that is raised is seen raised once: the first poll behind a signal
/// says so, and the next one does not, whatever the flag was before.
pub proof fn a_signal_is_seen_once(
    raising: &mut ReadyFlag,
    first: &mut ReadyFlag,
    second: &mut ReadyFlag,
    seen: bool,
    again: bool,
)
    requires
        call_ensures(ReadyFlag::signal, (raising,), ()),
        *old(first) == *final(raising),
        call_ensures(ReadyFlag::poll_and_clear, (first,), seen),
        *old(second) == *final(first),
        call_ensures(ReadyFlag::poll_and_clear, (second,), again),
    ensures
        seen,
        !again,
{
}

/// A fresh flag is what it was made as, to the first poll.
pub proof fn a_fresh_flag_is_as_made(
    raised: bool,
    fresh: ReadyFlag,
    polled: &mut ReadyFlag,
    seen: bool,
)
    requires
        call_ensures(ReadyFlag::new, (raised,), fresh),
        *old(polled) == fresh,
        call_ensures(ReadyFlag::poll_and_clear, (polled,), seen),
    ensures
        seen == raised,
{
}

} // verus!
