//! Supervising the adapter process: how it is started, what is made of each
//! line it prints, and what it is fed.

use vstd::prelude::*;
use vstd::string::*;
use crate::decimal::{decimal_string, decimal_text};
use crate::search::{contains, contains_text, lemma_contains_embedded};

verus! {

/// How one standard stream of the child is connected.
#[derive(Clone, Copy, PartialEq, Eq, Debug, Structural)]
pub enum Wiring {
    /// Shared with the parent.
    Inherited,
    /// A pipe whose other end the parent holds.
    Piped,
}

/// Everything needed to start the adapter.
#[derive(Debug)]
pub struct LaunchPlan {
    /// The program, looked up on the search path.
    pub program: String,
    /// Its arguments, one per element.
    pub args: Vec<String>,
    /// Variables added to the environment that the child inherits.
    pub env: Vec<(String, String)>,
    pub stdin: Wiring,
    pub stdout: Wiring,
    pub stderr: Wiring,
}

/// A launch plan as plain text and sequences.
pub struct LaunchPlanView {
    pub program: Seq<char>,
    pub args: Seq<Seq<char>>,
    pub env: Seq<(Seq<char>, Seq<char>)>,
    pub stdin: Wiring,
    pub stdout: Wiring,
    pub stderr: Wiring,
}

impl View for LaunchPlan {
    type V = LaunchPlanView;

    open spec fn view(&self) -> LaunchPlanView {
        LaunchPlanView {
            program: self.program@,
            args: self.args@.map_values(|arg: String| arg@),
            env: self.env@.map_values(|pair: (String, String)| (pair.0@, pair.1@)),
            stdin: self.stdin,
            stdout: self.stdout,
            stderr: self.stderr,
        }
    }
}

/// The launch of `rdbg` listening on `port`: `rdbg --open --port <port>`,
/// protocol tracing switched on, and all three standard streams piped.
pub open spec fn launch_plan_for(port: u16) -> LaunchPlanView {
    LaunchPlanView {
        program: "rdbg"@,
        args: seq!["--open"@, "--port"@, decimal_text(port as nat)],
        env: seq![("DEBUG_DAP_SHOW_PROTOCOL"@, "1"@)],
        stdin: Wiring::Piped,
        stdout: Wiring::Piped,
        stderr: Wiring::Piped,
    }
}

/// Plans the launch of the adapter on `port`.
pub fn launch_plan(port: u16) -> (plan: LaunchPlan)
    ensures
        plan@ == launch_plan_for(port),
{
    let mut args: Vec<String> = Vec::new();
    args.push(String::from_str("--open"));
    args.push(String::from_str("--port"));
    args.push(decimal_string(port as u64));
    let mut env: Vec<(String, String)> = Vec::new();
    env.push((String::from_str("DEBUG_DAP_SHOW_PROTOCOL"), String::from_str("1")));
    let plan = LaunchPlan {
        program: String::from_str("rdbg"),
        args,
        env,
        stdin: Wiring::Piped,
        stdout: Wiring::Piped,
        stderr: Wiring::Piped,
    };
    assert(plan@.args =~= launch_plan_for(port).args);
    assert(plan@.env =~= launch_plan_for(port).env);
    plan
}

/// What the adapter prints on its error stream once it accepts connections.
pub open spec fn ready_marker_text() -> Seq<char> {
    "DEBUGGER: wait for debugger connection..."@
}

/// The readiness marker.
pub fn ready_marker() -> (marker: &'static str)
    ensures
        marker@ == ready_marker_text(),
{
    "DEBUGGER: wait for debugger connection..."
}

/// A line announces readiness when the marker stands anywhere in it.
pub open spec fn announces_ready(line: Seq<char>) -> bool {
    contains_text(line, ready_marker_text())
}

/// The marker counts wherever it stands in a line: whatever is written
/// before it and behind it, the line announces readiness.
pub proof fn lemma_marker_counts_anywhere(before: Seq<char>, behind: Seq<char>)
    ensures
        announces_ready(before + ready_marker_text() + behind),
{
    lemma_contains_embedded(before, ready_marker_text(), behind);
}

/// Whether `line` announces that the adapter is ready.
pub fn line_announces_ready(line: &str) -> (ready: bool)
    ensures
        ready == announces_ready(line@),
{
    contains(line, ready_marker())
}

/// An output stream of the child.
#[derive(Clone, Copy, PartialEq, Eq, Debug, Structural)]
pub enum Stream {
    Stdout,
    Stderr,
}

/// What came of asking a stream for its next line.
#[derive(Debug)]
pub enum LineRead {
    /// A line, without its terminator.
    Line(String),
    /// The stream has ended.
    Closed,
    /// The read failed.
    Failed,
}

/// What a relay does after a read.
#[derive(Clone, Copy, PartialEq, Eq, Debug, Structural)]
pub enum RelayStep {
    /// Log the line, raise the readiness flag if `set_ready` says so, and
    /// read on.
    Forward { set_ready: bool },
    /// Leave the stream alone from now on. Nothing else is affected.
    Finish,
}

/// The step that follows `read` on `stream`. Only a line of the error stream
/// can raise the flag; the end of a stream and a failed read both end the
/// relay.
pub open spec fn relay_step_for(stream: Stream, read: LineRead) -> RelayStep {
    match read {
        LineRead::Line(line) => RelayStep::Forward {
            set_ready: stream == Stream::Stderr && announces_ready(line@),
        },
        LineRead::Closed => RelayStep::Finish,
        LineRead::Failed => RelayStep::Finish,
    }
}

/// Decides what the relay of `stream` does after `read`.
pub fn relay_step(stream: Stream, read: &LineRead) -> (step: RelayStep)
    ensures
        step == relay_step_for(stream, *read),
{
    match read {
        LineRead::Line(line) => {
            let set_ready = match stream {
                Stream::Stdout => false,
                Stream::Stderr => line_announces_ready(line.as_str()),
            };
            RelayStep::Forward { set_ready }
        },
        LineRead::Closed => RelayStep::Finish,
        LineRead::Failed => RelayStep::Finish,
    }
}

/// The line written to the child's standard input right after the launch,
/// so that it does not leave before a debugger attaches.
pub fn stdin_filler() -> (text: &'static str)
    ensures
        text@ == seq!['i', '\n'],
{
    proof {
        reveal_strlit("i\n");
    }
    let text = "i\n";
    assert(text@ =~= seq!['i', '\n']);
    text
}

} // verus!
