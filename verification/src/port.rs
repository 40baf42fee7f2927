//! Choosing the port that the adapter is asked to listen on.

use vstd::prelude::*;
use rand::Rng;

verus! {

/// The lowest port that is ever proposed: the first one above the range
/// reserved for system services.
pub const MIN_PORT: u16 = 1024;

/// The highest port that is ever proposed.
pub const MAX_PORT: u16 = 65535;

/// A port that may be handed to the adapter.
pub open spec fn is_candidate(port: u16) -> bool {
    MIN_PORT <= port <= MAX_PORT
}

/// `rand::Rng::gen_range` on `rand::thread_rng()`, with the inclusive range
/// from `low` to `high`. The number drawn lies in that range; which one it is
/// differs from call to call. `gen_range` panics on an empty range, which the
/// precondition excludes. `thread_rng` panics if the operating system gives
/// it no seed.
#[verifier::external_body]
fn random_between(low: u16, high: u16) -> (drawn: u16)
    requires
        low <= high,
    ensures
        low <= drawn <= high,
{
    rand::thread_rng().gen_range(low..=high)
}

/// What a probe settles: a candidate that could be bound is the port, and one
/// that could not is given up.
pub open spec fn settled(candidate: u16, bindable: bool) -> Option<u16> {
    if bindable {
        Some(candidate)
    } else {
        None
    }
}

/// The search for a port. It holds the candidate to probe; the caller finds
/// out whether that one can be bound on the loopback interface, releases it
/// at once, and reports. The search goes on for as long as it takes.
#[derive(Debug)]
pub struct PortSearch {
    candidate: u16,
}

impl View for PortSearch {
    type V = u16;

    /// The candidate to probe.
    closed spec fn view(&self) -> u16 {
        self.candidate
    }
}

impl PortSearch {
    #[verifier::type_invariant]
    spec fn candidate_in_range(self) -> bool {
        is_candidate(self.candidate)
    }

    /// Begins a search with a first candidate, drawn at random.
    pub fn start() -> (search: Self)
        ensures
            is_candidate(search@),
    {
        PortSearch { candidate: random_between(MIN_PORT, MAX_PORT) }
    }

    /// The candidate to probe.
    pub fn candidate(&self) -> (port: u16)
        ensures
            port == self@,
            is_candidate(port),
    {
        proof {
            use_type_invariant(self);
        }
        self.candidate
    }

    /// Takes in whether the candidate could be bound. If so, it is the port,
    /// and the search holds on to it. If not, nothing is returned and another
    /// candidate is drawn, which may be one that was tried before.
    pub fn report(&mut self, bindable: bool) -> (chosen: Option<u16>)
        ensures
            chosen == settled(old(self)@, bindable),
            bindable ==> final(self)@ == old(self)@,
            is_candidate(final(self)@),
            chosen matches Some(port) ==> is_candidate(port),
    {
        proof {
            use_type_invariant(&*self);
        }
        if bindable {
            Some(self.candidate)
        } else {
            self.candidate = random_between(MIN_PORT, MAX_PORT);
            None
        }
    }
}

} // verus!
