use givetray::event::Event;
use givetray::supervisor::{start_error_message, PollOutcome, StartError, Supervisor};

#[test]
fn empty_command_is_rejected_without_a_process() {
    let sup = Supervisor::new();
    let r = sup.plan_start("");
    assert!(matches!(r, Err(StartError::EmptyCommand)));
    let r = sup.plan_start("   ");
    assert!(matches!(r, Err(StartError::EmptyCommand)));
    assert_eq!(
        start_error_message(&StartError::EmptyCommand),
        "command is empty"
    );
}

#[test]
fn malformed_quoting_is_a_parse_error() {
    let sup = Supervisor::new();
    let r = sup.plan_start("echo 'unterminated");
    assert!(matches!(r, Err(StartError::ParseError)));
    assert_eq!(
        start_error_message(&StartError::ParseError),
        "command parse error: missing closing quote"
    );
}

#[test]
fn second_start_while_active_is_rejected() {
    let mut sup = Supervisor::new();
    let _ = sup.note_spawned();
    let r = sup.plan_start("echo hello");
    assert!(matches!(r, Err(StartError::AlreadyRunning)));
    assert_eq!(
        start_error_message(&StartError::AlreadyRunning),
        "command is already running"
    );
}

#[test]
fn plain_command_tokenizes_with_quoting() {
    let sup = Supervisor::new();
    let plan = sup.plan_start("echo 'hello world' plain").unwrap();
    assert_eq!(plan.args, vec!["echo", "hello world", "plain"]);
    assert!(!plan.needs_secret);
}

#[test]
fn escalation_command_gains_stdin_flag() {
    let sup = Supervisor::new();
    let plan = sup.plan_start("sudo apt update").unwrap();
    assert_eq!(plan.args, vec!["sudo", "-S", "apt", "update"]);
    assert!(plan.needs_secret);
}

#[test]
fn escalation_command_with_flag_is_kept() {
    let sup = Supervisor::new();
    let plan = sup.plan_start("sudo --stdin apt update").unwrap();
    assert_eq!(plan.args, vec!["sudo", "--stdin", "apt", "update"]);
    assert!(plan.needs_secret);
}

#[test]
fn spawn_emits_running_then_started() {
    let mut sup = Supervisor::new();
    let evs = sup.note_spawned();
    assert_eq!(evs.len(), 2);
    assert!(matches!(&evs[0], Event::SetRunning(true)));
    match &evs[1] {
        Event::AppendLog(line) => assert_eq!(line, "command started"),
        _ => panic!("expected the informational line"),
    }
}

#[test]
fn start_then_stop_emits_exactly_one_exit() {
    let mut sup = Supervisor::new();
    let _ = sup.note_spawned();
    let had = sup.take_for_stop();
    assert!(had);
    let evs = Supervisor::finish_stop(had, Some(0));
    let exits = evs
        .iter()
        .filter(|e| matches!(e, Event::ProcessExited(_)))
        .count();
    assert_eq!(exits, 1);
    let r = sup.plan_start("echo again");
    assert!(r.is_ok());
}

#[test]
fn stop_twice_is_a_no_op_the_second_time() {
    let mut sup = Supervisor::new();
    let _ = sup.note_spawned();
    let had1 = sup.take_for_stop();
    let had2 = sup.take_for_stop();
    assert!(had1);
    assert!(!had2);
    let mut exits = 0;
    for e in Supervisor::finish_stop(had1, Some(0)) {
        if matches!(e, Event::ProcessExited(_)) {
            exits += 1;
        }
    }
    for e in Supervisor::finish_stop(had2, Some(0)) {
        if matches!(e, Event::ProcessExited(_)) {
            exits += 1;
        }
    }
    assert_eq!(exits, 1);
}

#[test]
fn poll_tick_reports_silent_exit_once() {
    let mut sup = Supervisor::new();
    let _ = sup.note_spawned();
    let ev = sup.poll_tick(PollOutcome::StillRunning);
    assert!(ev.is_none());
    let ev = sup.poll_tick(PollOutcome::Exited(Some(1)));
    match ev {
        Some(Event::ProcessExited(Some(1))) => {}
        _ => panic!("expected the exit event"),
    }
    let ev = sup.poll_tick(PollOutcome::Exited(Some(1)));
    assert!(ev.is_none());
}

#[test]
fn poll_tick_check_failure_only_logs() {
    let mut sup = Supervisor::new();
    let _ = sup.note_spawned();
    let ev = sup.poll_tick(PollOutcome::CheckFailed("oops".to_string()));
    match ev {
        Some(Event::AppendLog(line)) => {
            assert_eq!(line, "failed to check command status: oops")
        }
        _ => panic!("expected a diagnostic line"),
    }
    let ev = sup.poll_tick(PollOutcome::StillRunning);
    assert!(ev.is_none());
}

#[test]
fn spawn_failure_message_carries_the_report() {
    assert_eq!(
        start_error_message(&StartError::SpawnError("No such file".to_string())),
        "failed to start command: No such file"
    );
    assert_eq!(
        start_error_message(&StartError::CredentialCancelled),
        "sudo password prompt cancelled"
    );
}
