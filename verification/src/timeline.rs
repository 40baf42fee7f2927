//! What holds of every run, whatever the order in which things happen.
//!
//! The relays, the wait for the child and the launch itself proceed side by
//! side. A run is modelled as the sequence of what happened, one occurrence
//! after another, acting on the readiness flag and on the session. The
//! theorems below quantify over all such sequences.

use vstd::prelude::*;
use crate::readiness::raise;
use crate::session::{next_state, pending, Action, Event, Outcome, Phase, SessionState};
use crate::supervisor::{announces_ready, relay_step_for, LineRead, RelayStep, Stream};

verus! {

/// One thing that happens during a run.
pub enum Occurrence {
    /// A relay asked `stream` for its next line and got `read`.
    Relayed { stream: Stream, read: LineRead },
    /// The child ended, in good order or not, or waiting for it failed.
    ChildGone,
    /// The session's pending action was answered by `event`.
    Answered { event: Event },
}

/// The flag and the session at one moment.
pub struct World {
    pub flag: bool,
    pub session: SessionState,
}

/// The flag after a relay has taken `step`.
pub open spec fn flag_after(flag: bool, step: RelayStep) -> bool {
    match step {
        RelayStep::Forward { set_ready } => if set_ready {
            raise(flag)
        } else {
            flag
        },
        RelayStep::Finish => flag,
    }
}

/// The world after `occurrence`.
pub open spec fn after(world: World, occurrence: Occurrence) -> World {
    match occurrence {
        Occurrence::Relayed { stream, read } => World {
            flag: flag_after(world.flag, relay_step_for(stream, read)),
            session: world.session,
        },
        Occurrence::ChildGone => world,
        Occurrence::Answered { event } => World {
            flag: world.flag,
            session: next_state(world.session, event),
        },
    }
}

/// An occurrence that can happen in `world`: a report on the flag says what
/// the flag shows.
pub open spec fn admissible(world: World, occurrence: Occurrence) -> bool {
    occurrence matches Occurrence::Answered { event: Event::Readiness { ready } } ==> ready
        == world.flag
}

/// The world after all of `history`, starting from `start`.
pub open spec fn run(start: World, history: Seq<Occurrence>) -> World
    decreases history.len(),
{
    if history.len() == 0 {
        start
    } else {
        after(run(start, history.drop_last()), history.last())
    }
}

/// Every occurrence of `history` can happen at its moment.
pub open spec fn admissible_history(start: World, history: Seq<Occurrence>) -> bool {
    forall|k: int|
        0 <= k < history.len() ==> admissible(run(start, #[trigger] history.take(k)), history[k])
}

/// The world in which a launch on `port` begins: the flag lowered, the
/// adapter about to be started.
pub open spec fn initial(port: u16) -> World {
    World { flag: false, session: SessionState { phase: Phase::Spawning, port } }
}

/// `occurrence` is a line on the error stream that carries the marker.
pub open spec fn is_marker_line(occurrence: Occurrence) -> bool {
    occurrence matches Occurrence::Relayed { stream: Stream::Stderr, read: LineRead::Line(line) }
        && announces_ready(line@)
}

/// The handshake has been asked for, now or earlier.
pub open spec fn handshake_requested(phase: Phase) -> bool {
    phase == Phase::Connecting || phase == Phase::Finished(Outcome::HandshakeSent) || phase
        == Phase::Finished(Outcome::HandshakeFailed)
}

proof fn lemma_admissible_prefix(start: World, history: Seq<Occurrence>)
    requires
        history.len() > 0,
        admissible_history(start, history),
    ensures
        admissible_history(start, history.drop_last()),
        admissible(run(start, history.drop_last()), history.last()),
{
    let shorter = history.drop_last();
    assert forall|k: int| 0 <= k < shorter.len() implies admissible(
        run(start, #[trigger] shorter.take(k)),
        shorter[k],
    ) by {
        assert(shorter.take(k) =~= history.take(k));
    }
    assert(history.take(history.len() - 1) =~= shorter);
}

/// Once raised, the flag stays raised: nothing that happens lowers it.
pub proof fn lemma_flag_never_lowers(start: World, history: Seq<Occurrence>)
    requires
        start.flag,
    ensures
        run(start, history).flag,
    decreases history.len(),
{
    if history.len() > 0 {
        lemma_flag_never_lowers(start, history.drop_last());
    }
}

/// Only a line on the error stream that carries the marker raises the flag:
/// if the flag went from lowered to raised, such a line was read. Lines on
/// the output stream, the end of a stream, a failed read, the child's end and
/// the progress of the session leave the flag as it is.
pub proof fn lemma_flag_raised_by_marker_line(start: World, history: Seq<Occurrence>)
    requires
        !start.flag,
        run(start, history).flag,
    ensures
        exists|k: int| 0 <= k < history.len() && is_marker_line(#[trigger] history[k]),
    decreases history.len(),
{
    if history.len() > 0 {
        let shorter = history.drop_last();
        if run(start, shorter).flag {
            lemma_flag_raised_by_marker_line(start, shorter);
            let k = choose|k: int| 0 <= k < shorter.len() && is_marker_line(#[trigger] shorter[k]);
            assert(is_marker_line(history[k]));
        } else {
            assert(is_marker_line(history[history.len() - 1]));
        }
    }
}

/// The handshake is never asked for while the flag is lowered: in every run
/// from the start of a launch, if the session has come to the handshake, the
/// flag is raised.
pub proof fn lemma_handshake_waits_for_readiness(port: u16, history: Seq<Occurrence>)
    requires
        admissible_history(initial(port), history),
    ensures
        handshake_requested(run(initial(port), history).session.phase) ==> run(
            initial(port),
            history,
        ).flag,
        pending(run(initial(port), history).session) is Handshake ==> run(
            initial(port),
            history,
        ).flag,
    decreases history.len(),
{
    if history.len() > 0 {
        lemma_admissible_prefix(initial(port), history);
        lemma_handshake_waits_for_readiness(port, history.drop_last());
    }
}

/// A handshake is preceded by a marker line: in every run from the start of
/// a launch in which the session has come to the handshake, the error stream
/// has carried the marker.
pub proof fn lemma_handshake_follows_marker_line(port: u16, history: Seq<Occurrence>)
    requires
        admissible_history(initial(port), history),
        handshake_requested(run(initial(port), history).session.phase),
    ensures
        exists|k: int| 0 <= k < history.len() && is_marker_line(#[trigger] history[k]),
{
    lemma_handshake_waits_for_readiness(port, history);
    lemma_flag_raised_by_marker_line(initial(port), history);
}

/// The port of a launch is fixed: the adapter is started on the port that
/// the launch began with, and the handshake goes to that same port.
pub proof fn lemma_port_is_fixed(port: u16, history: Seq<Occurrence>)
    ensures
        run(initial(port), history).session.port == port,
        pending(run(initial(port), history).session) matches Action::Spawn { port: asked }
            ==> asked == port,
        pending(run(initial(port), history).session) matches Action::Handshake { port: asked }
            ==> asked == port,
    decreases history.len(),
{
    if history.len() > 0 {
        lemma_port_is_fixed(port, history.drop_last());
    }
}

/// The end of the child changes neither the flag nor the session.
pub proof fn lemma_child_end_changes_nothing(world: World)
    ensures
        after(world, Occurrence::ChildGone) == world,
{
}

/// Readiness outlives the child: once the flag is raised, a session that
/// waits for it goes on to the handshake on its port, also when the child
/// has ended in between, and whatever else has happened to the streams.
pub proof fn lemma_handshake_proceeds_after_child_end(world: World, between: Seq<Occurrence>)
    requires
        world.flag,
        world.session.phase == Phase::Waiting,
        forall|k: int| 0 <= k < between.len() ==> !(#[trigger] between[k] is Answered),
    ensures
        ({
            let later = run(world, between);
            let report = Occurrence::Answered { event: Event::Readiness { ready: true } };
            &&& later.flag
            &&& later.session == world.session
            &&& admissible(later, report)
            &&& after(later, report).session.phase == Phase::Connecting
            &&& pending(after(later, report).session) == (Action::Handshake {
                port: world.session.port,
            })
        }),
    decreases between.len(),
{
    if between.len() > 0 {
        let shorter = between.drop_last();
        assert forall|k: int| 0 <= k < shorter.len() implies !(#[trigger] shorter[k] is Answered) by {
            assert(shorter[k] == between[k]);
        }
        lemma_handshake_proceeds_after_child_end(world, shorter);
        assert(!(between[between.len() - 1] is Answered));
    }
}

} // verus!
