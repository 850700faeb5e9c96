use backend_launcher::logs::{forward_lines, log_streams, next_step, LogLine, ReadOutcome, ReaderStep, StreamOrigin};
use backend_launcher::error::LaunchError;
use backend_launcher::supervisor::{spawn_outcome, Lifecycle, Supervisor};
use backend_launcher::window::{debug_window_title, needs_first_run_sizing, state_file_name};

fn running(handle: u32) -> Supervisor<u32> {
    let mut supervisor = Supervisor::new();
    assert!(supervisor.begin_spawn());
    assert_eq!(supervisor.store(handle), None);
    supervisor
}

fn line(text: &str) -> ReadOutcome {
    ReadOutcome::Line(text.to_string())
}

#[test]
fn life_of_a_terminated_backend() {
    let mut supervisor: Supervisor<u32> = Supervisor::new();
    assert_eq!(supervisor.state(), Lifecycle::Unspawned);
    assert!(supervisor.begin_spawn());
    assert_eq!(supervisor.state(), Lifecycle::Spawning);
    assert_eq!(supervisor.store(4711), None);
    assert_eq!(supervisor.state(), Lifecycle::Running);
    assert_eq!(supervisor.terminate(), Some(4711));
    assert_eq!(supervisor.state(), Lifecycle::Terminating);
    supervisor.confirm_terminated();
    assert_eq!(supervisor.state(), Lifecycle::Terminated);
}

#[test]
fn second_terminate_finds_nothing() {
    let mut supervisor = running(4711);
    assert_eq!(supervisor.terminate(), Some(4711));
    assert_eq!(supervisor.terminate(), None);
    assert_eq!(supervisor.state(), Lifecycle::Terminating);
    supervisor.confirm_terminated();
    assert_eq!(supervisor.terminate(), None);
    assert_eq!(supervisor.state(), Lifecycle::Terminated);
}

#[test]
fn terminate_before_anything_runs_is_a_no_op() {
    let mut supervisor: Supervisor<u32> = Supervisor::new();
    assert_eq!(supervisor.terminate(), None);
    assert_eq!(supervisor.state(), Lifecycle::Unspawned);
    assert!(supervisor.begin_spawn());
    assert_eq!(supervisor.terminate(), None);
    assert_eq!(supervisor.state(), Lifecycle::Spawning);
}

#[test]
fn terminate_after_the_backend_exited_is_a_no_op() {
    let mut supervisor = running(9);
    assert_eq!(supervisor.record_exit(), Some(9));
    assert_eq!(supervisor.state(), Lifecycle::Exited);
    assert_eq!(supervisor.terminate(), None);
    assert_eq!(supervisor.state(), Lifecycle::Exited);
    supervisor.confirm_terminated();
    assert_eq!(supervisor.state(), Lifecycle::Exited);
}

#[test]
fn exit_is_recorded_only_while_running() {
    let mut supervisor: Supervisor<u32> = Supervisor::new();
    assert_eq!(supervisor.record_exit(), None);
    assert_eq!(supervisor.state(), Lifecycle::Unspawned);
    let mut supervisor = running(3);
    assert_eq!(supervisor.terminate(), Some(3));
    assert_eq!(supervisor.record_exit(), None);
    assert_eq!(supervisor.state(), Lifecycle::Terminating);
}

#[test]
fn only_one_backend_per_supervisor() {
    let mut supervisor = running(1);
    assert!(!supervisor.begin_spawn());
    assert_eq!(supervisor.store(2), Some(2));
    assert_eq!(supervisor.state(), Lifecycle::Running);
    assert_eq!(supervisor.terminate(), Some(1));
    assert!(!supervisor.begin_spawn());
    assert_eq!(supervisor.store(2), Some(2));
    supervisor.confirm_terminated();
    assert!(!supervisor.begin_spawn());
    assert_eq!(supervisor.state(), Lifecycle::Terminated);
}

#[test]
fn handle_is_refused_before_spawning_began() {
    let mut supervisor: Supervisor<u32> = Supervisor::new();
    assert_eq!(supervisor.store(5), Some(5));
    assert_eq!(supervisor.state(), Lifecycle::Unspawned);
}

#[test]
fn confirmation_without_termination_changes_nothing() {
    let mut supervisor = running(1);
    supervisor.confirm_terminated();
    assert_eq!(supervisor.state(), Lifecycle::Running);
    assert_eq!(supervisor.terminate(), Some(1));
}

#[test]
fn channels_are_named_after_their_stream() {
    assert_eq!(StreamOrigin::Stdout.channel_name(), "backend-stdout");
    assert_eq!(StreamOrigin::Stderr.channel_name(), "backend-stderr");
}

#[test]
fn readers_exist_in_debug_mode_only() {
    assert_eq!(log_streams(true), vec![StreamOrigin::Stdout, StreamOrigin::Stderr]);
    assert_eq!(log_streams(false), Vec::new());
}

#[test]
fn reader_forwards_skips_and_stops() {
    assert_eq!(
        next_step(StreamOrigin::Stderr, line("boom")),
        ReaderStep::Forward(LogLine { origin: StreamOrigin::Stderr, text: "boom".to_string() })
    );
    assert_eq!(next_step(StreamOrigin::Stdout, ReadOutcome::Undecodable), ReaderStep::Skip);
    assert_eq!(next_step(StreamOrigin::Stdout, ReadOutcome::Closed), ReaderStep::Stop);
}

#[test]
fn ready_line_is_forwarded_once() {
    let lines = forward_lines(StreamOrigin::Stdout, &vec![line("READY"), ReadOutcome::Closed]);
    assert_eq!(
        lines,
        vec![LogLine { origin: StreamOrigin::Stdout, text: "READY".to_string() }]
    );
}

#[test]
fn backend_that_exits_at_once_forwards_nothing() {
    assert_eq!(forward_lines(StreamOrigin::Stdout, &vec![ReadOutcome::Closed]), Vec::new());
    assert_eq!(forward_lines(StreamOrigin::Stderr, &Vec::new()), Vec::new());
    let mut supervisor = running(77);
    assert_eq!(supervisor.record_exit(), Some(77));
    assert_eq!(supervisor.terminate(), None);
}

#[test]
fn undecodable_line_is_dropped_and_reading_goes_on() {
    let outcomes = vec![line("a"), ReadOutcome::Undecodable, line("b"), line(""), ReadOutcome::Closed, line("late")];
    let lines = forward_lines(StreamOrigin::Stderr, &outcomes);
    let texts: Vec<&str> = lines.iter().map(|l| l.text.as_str()).collect();
    assert_eq!(texts, vec!["a", "b", ""]);
    for l in &lines {
        assert_eq!(l.origin, StreamOrigin::Stderr);
    }
}

#[test]
fn lines_without_a_close_are_all_forwarded_in_order() {
    let outcomes = vec![line("1"), line("2"), line("3")];
    let lines = forward_lines(StreamOrigin::Stdout, &outcomes);
    let texts: Vec<&str> = lines.iter().map(|l| l.text.as_str()).collect();
    assert_eq!(texts, vec!["1", "2", "3"]);
}

#[test]
fn sizing_happens_on_first_run_only() {
    assert!(needs_first_run_sizing(false));
    assert!(!needs_first_run_sizing(true));
    assert_eq!(state_file_name(), ".window-state.json");
}

#[test]
fn debug_window_is_titled_after_the_product() {
    assert_eq!(debug_window_title("Lish"), "Lish - Backend Debug Console");
    assert_eq!(debug_window_title(""), " - Backend Debug Console");
}

#[test]
fn failed_spawn_keeps_its_cause() {
    let created: Result<u32, String> = Err("No such file or directory".to_string());
    assert_eq!(
        spawn_outcome(created),
        Err(LaunchError::SpawnFailed("No such file or directory".to_string()))
    );
    let created: Result<u32, String> = Ok(12);
    assert_eq!(spawn_outcome(created), Ok(12));
}

#[test]
fn failed_spawn_leaves_nothing_to_terminate() {
    let mut supervisor: Supervisor<u32> = Supervisor::new();
    assert!(supervisor.begin_spawn());
    let created: Result<u32, String> = Err("denied".to_string());
    let failure = spawn_outcome(created).unwrap_err();
    assert!(failure.is_fatal());
    assert_ne!(failure.exit_code(), 0);
    assert_eq!(supervisor.state(), Lifecycle::Spawning);
    assert_eq!(supervisor.terminate(), None);
}
