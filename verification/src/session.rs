//! The course of one launch, from starting the adapter to the handshake.
//!
//! A [`Session`] never acts. It names the next thing to do; the caller does
//! it and reports what came of it, and the session names the next one.

use vstd::prelude::*;

verus! {

/// How a launch ended.
#[derive(Clone, Copy, PartialEq, Eq, Debug, Structural)]
pub enum Outcome {
    /// The adapter could not be started.
    SpawnFailed,
    /// The `initialize` request went out.
    HandshakeSent,
    /// The adapter was ready, but connecting or writing to it failed.
    HandshakeFailed,
}

/// Where a launch stands.
#[derive(Clone, Copy, PartialEq, Eq, Debug, Structural)]
pub enum Phase {
    /// The adapter is being started.
    Spawning,
    /// The adapter runs; it has not been seen to be ready.
    Waiting,
    /// The adapter is ready; the handshake is under way.
    Connecting,
    /// Nothing is left to do.
    Finished(Outcome),
}

/// What the caller is asked to do.
#[derive(Clone, Copy, PartialEq, Eq, Debug, Structural)]
pub enum Action {
    /// Start the adapter on `port` and begin to relay its output.
    Spawn { port: u16 },
    /// Return once the readiness flag has changed, or at once if it is
    /// already raised, and report what it shows.
    AwaitReadiness,
    /// Connect to the adapter on `port` and send the `initialize` request.
    /// One attempt, no more.
    Handshake { port: u16 },
    /// Leave with this exit code.
    Exit { code: i32 },
}

/// What the caller reports back.
#[derive(Clone, Copy, PartialEq, Eq, Debug, Structural)]
pub enum Event {
    /// The adapter runs.
    Spawned,
    /// The adapter could not be started.
    SpawnFailed,
    /// The readiness flag was looked at and showed `ready`.
    Readiness { ready: bool },
    /// Both parts of the request were written.
    HandshakeSent,
    /// The connection was refused, or a write failed.
    HandshakeFailed,
}

/// A session as plain data.
pub struct SessionState {
    pub phase: Phase,
    /// The port that the adapter is started on and the handshake goes to.
    pub port: u16,
}

/// The exit code that goes with an outcome. Only a failed start is fatal: a
/// failed handshake is reported and the process still leaves in good order.
pub open spec fn exit_code_of(outcome: Outcome) -> i32 {
    match outcome {
        Outcome::SpawnFailed => 1,
        Outcome::HandshakeSent => 0,
        Outcome::HandshakeFailed => 0,
    }
}

/// The action that a session in `state` waits to have answered.
pub open spec fn pending(state: SessionState) -> Action {
    match state.phase {
        Phase::Spawning => Action::Spawn { port: state.port },
        Phase::Waiting => Action::AwaitReadiness,
        Phase::Connecting => Action::Handshake { port: state.port },
        Phase::Finished(outcome) => Action::Exit { code: exit_code_of(outcome) },
    }
}

/// The phase that follows `phase` on `event`. An event that does not answer
/// the pending action changes nothing; so does a look at the flag that finds
/// it lowered.
pub open spec fn next_phase(phase: Phase, event: Event) -> Phase {
    match (phase, event) {
        (Phase::Spawning, Event::Spawned) => Phase::Waiting,
        (Phase::Spawning, Event::SpawnFailed) => Phase::Finished(Outcome::SpawnFailed),
        (Phase::Waiting, Event::Readiness { ready }) => if ready {
            Phase::Connecting
        } else {
            Phase::Waiting
        },
        (Phase::Connecting, Event::HandshakeSent) => Phase::Finished(Outcome::HandshakeSent),
        (Phase::Connecting, Event::HandshakeFailed) => Phase::Finished(Outcome::HandshakeFailed),
        _ => phase,
    }
}

/// The state that follows `state` on `event`. The port stays what it is.
pub open spec fn next_state(state: SessionState, event: Event) -> SessionState {
    SessionState { phase: next_phase(state.phase, event), port: state.port }
}

/// One launch in progress.
#[derive(Debug)]
pub struct Session {
    phase: Phase,
    port: u16,
}

impl View for Session {
    type V = SessionState;

    closed spec fn view(&self) -> SessionState {
        SessionState { phase: self.phase, port: self.port }
    }
}

impl Session {
    /// Begins a launch on `port`: the adapter is to be started.
    pub fn start(port: u16) -> (session: Self)
        ensures
            session@ == (SessionState { phase: Phase::Spawning, port }),
    {
        Session { phase: Phase::Spawning, port }
    }

    /// The action that the session waits to have answered.
    pub fn action(&self) -> (action: Action)
        ensures
            action == pending(self@),
    {
        match self.phase {
            Phase::Spawning => Action::Spawn { port: self.port },
            Phase::Waiting => Action::AwaitReadiness,
            Phase::Connecting => Action::Handshake { port: self.port },
            Phase::Finished(outcome) => Action::Exit { code: exit_code(outcome) },
        }
    }

    /// Where the launch stands.
    pub fn phase(&self) -> (phase: Phase)
        ensures
            phase == self@.phase,
    {
        self.phase
    }

    /// The port of this launch.
    pub fn port(&self) -> (port: u16)
        ensures
            port == self@.port,
    {
        self.port
    }

    /// Takes in what came of the pending action and returns the next one.
    pub fn step(&mut self, event: Event) -> (action: Action)
        ensures
            final(self)@ == next_state(old(self)@, event),
            action == pending(final(self)@),
    {
        match (self.phase, event) {
            (Phase::Spawning, Event::Spawned) => {
                self.phase = Phase::Waiting;
            },
            (Phase::Spawning, Event::SpawnFailed) => {
                self.phase = Phase::Finished(Outcome::SpawnFailed);
            },
            (Phase::Waiting, Event::Readiness { ready }) => {
                if ready {
                    self.phase = Phase::Connecting;
                }
            },
            (Phase::Connecting, Event::HandshakeSent) => {
                self.phase = Phase::Finished(Outcome::HandshakeSent);
            },
            (Phase::Connecting, Event::HandshakeFailed) => {
                self.phase = Phase::Finished(Outcome::HandshakeFailed);
            },
            _ => {},
        }
        self.action()
    }
}

/// The exit code that goes with `outcome`.
pub fn exit_code(outcome: Outcome) -> (code: i32)
    ensures
        code == exit_code_of(outcome),
{
    match outcome {
        Outcome::SpawnFailed => 1,
        Outcome::HandshakeSent => 0,
        Outcome::HandshakeFailed => 0,
    }
}

} // verus!
