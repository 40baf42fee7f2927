use rdbg_launcher::supervisor::{
    launch_plan, line_announces_ready, ready_marker, relay_step, stdin_filler, LineRead,
    RelayStep, Stream, Wiring,
};

#[test]
fn launch_names_the_program_and_the_port() {
    let plan = launch_plan(4711);
    assert_eq!(plan.program, "rdbg");
    assert_eq!(plan.args, vec!["--open", "--port", "4711"]);
}

#[test]
fn launch_on_the_lowest_and_highest_port() {
    assert_eq!(launch_plan(0).args, vec!["--open", "--port", "0"]);
    assert_eq!(launch_plan(1024).args, vec!["--open", "--port", "1024"]);
    assert_eq!(launch_plan(65535).args, vec!["--open", "--port", "65535"]);
}

#[test]
fn launch_switches_protocol_tracing_on() {
    let plan = launch_plan(4711);
    assert_eq!(
        plan.env,
        vec![(String::from("DEBUG_DAP_SHOW_PROTOCOL"), String::from("1"))]
    );
}

#[test]
fn launch_pipes_all_three_streams() {
    let plan = launch_plan(4711);
    assert_eq!(plan.stdin, Wiring::Piped);
    assert_eq!(plan.stdout, Wiring::Piped);
    assert_eq!(plan.stderr, Wiring::Piped);
}

#[test]
fn the_marker_is_the_adapters_own_words() {
    assert_eq!(ready_marker(), "DEBUGGER: wait for debugger connection...");
}

#[test]
fn the_bare_marker_announces_readiness() {
    assert!(line_announces_ready("DEBUGGER: wait for debugger connection..."));
}

#[test]
fn the_marker_counts_inside_other_text() {
    assert!(line_announces_ready(
        "[pid 123] DEBUGGER: wait for debugger connection... on 0.0.0.0:1234"
    ));
}

#[test]
fn a_cut_marker_does_not_count() {
    assert!(!line_announces_ready("DEBUGGER: wait for debugger connection.."));
    assert!(!line_announces_ready("DEBUGGER: wait for debugger connection"));
    assert!(!line_announces_ready("EBUGGER: wait for debugger connection..."));
}

#[test]
fn other_lines_do_not_count() {
    assert!(!line_announces_ready(""));
    assert!(!line_announces_ready("DEBUGGER: Debugger can attach via TCP/IP (127.0.0.1:4711)"));
    assert!(!line_announces_ready("debugger: wait for debugger connection..."));
}

#[test]
fn a_marker_line_on_the_error_stream_raises_the_flag() {
    let read = LineRead::Line(String::from("DEBUGGER: wait for debugger connection..."));
    assert_eq!(
        relay_step(Stream::Stderr, &read),
        RelayStep::Forward { set_ready: true }
    );
}

#[test]
fn a_marker_line_on_the_output_stream_does_not() {
    let read = LineRead::Line(String::from("DEBUGGER: wait for debugger connection..."));
    assert_eq!(
        relay_step(Stream::Stdout, &read),
        RelayStep::Forward { set_ready: false }
    );
}

#[test]
fn an_ordinary_line_is_forwarded() {
    let read = LineRead::Line(String::from("hello"));
    assert_eq!(
        relay_step(Stream::Stderr, &read),
        RelayStep::Forward { set_ready: false }
    );
    assert_eq!(
        relay_step(Stream::Stdout, &read),
        RelayStep::Forward { set_ready: false }
    );
}

#[test]
fn a_second_marker_line_is_forwarded_like_the_first() {
    let read = LineRead::Line(String::from("x DEBUGGER: wait for debugger connection... y"));
    let first = relay_step(Stream::Stderr, &read);
    let second = relay_step(Stream::Stderr, &read);
    assert_eq!(first, RelayStep::Forward { set_ready: true });
    assert_eq!(second, first);
}

#[test]
fn the_end_of_a_stream_ends_its_relay() {
    assert_eq!(relay_step(Stream::Stdout, &LineRead::Closed), RelayStep::Finish);
    assert_eq!(relay_step(Stream::Stderr, &LineRead::Closed), RelayStep::Finish);
}

#[test]
fn a_failed_read_ends_the_relay() {
    assert_eq!(relay_step(Stream::Stdout, &LineRead::Failed), RelayStep::Finish);
    assert_eq!(relay_step(Stream::Stderr, &LineRead::Failed), RelayStep::Finish);
}

#[test]
fn the_filler_is_one_short_line() {
    assert_eq!(stdin_filler(), "i\n");
}
