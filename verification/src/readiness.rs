//! The readiness flag: whether the adapter has announced that it accepts
//! connections.

use vstd::prelude::*;

verus! {

/// A flag that starts lowered and can only be raised. There is no way to
/// lower it again.
#[derive(Clone, Copy, PartialEq, Eq, Debug)]
pub struct ReadinessFlag {
    raised: bool,
}

impl View for ReadinessFlag {
    type V = bool;

    /// Whether the flag is raised.
    closed spec fn view(&self) -> bool {
        self.raised
    }
}

/// The flag after one more call to raise it.
pub open spec fn raise(flag: bool) -> bool {
    true
}

/// The flag after `times` calls to raise it.
pub open spec fn raise_repeatedly(flag: bool, times: nat) -> bool
    decreases times,
{
    if times == 0 {
        flag
    } else {
        raise(raise_repeatedly(flag, (times - 1) as nat))
    }
}

impl ReadinessFlag {
    /// A lowered flag.
    pub fn new() -> (flag: Self)
        ensures
            !flag@,
    {
        ReadinessFlag { raised: false }
    }

    /// Raises the flag. On a raised flag this changes nothing.
    pub fn set_ready(&mut self)
        ensures
            final(self)@ == raise(old(self)@),
    {
        self.raised = true;
    }

    /// Whether the flag is raised.
    pub fn is_ready(&self) -> (ready: bool)
        ensures
            ready == self@,
    {
        self.raised
    }
}

/// Raising the flag once or many times comes to the same: it is raised, and
/// every call after the first changes nothing.
pub proof fn lemma_raise_is_idempotent(flag: bool, times: nat)
    requires
        times >= 1,
    ensures
        raise_repeatedly(flag, times),
        raise_repeatedly(flag, times) == raise(flag),
        raise(raise_repeatedly(flag, times)) == raise_repeatedly(flag, times),
{
}

/// A raised flag stays raised, however often it is raised again.
pub proof fn lemma_raised_flag_stays_raised(flag: bool, times: nat)
    requires
        flag,
    ensures
        raise_repeatedly(flag, times),
    decreases times,
{
    if times > 0 {
        lemma_raised_flag_stays_raised(flag, (times - 1) as nat);
    }
}

} // verus!
