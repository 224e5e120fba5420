use givetray::gate::{CredentialGate, GatePhase};
use givetray::termination::{term_begin, term_poll, TermAction, WaitStatus};

#[test]
fn termination_skips_a_process_already_gone() {
    assert!(matches!(
        term_begin(&WaitStatus::Exited(Some(0))),
        TermAction::Finished
    ));
    assert!(matches!(
        term_begin(&WaitStatus::StillRunning),
        TermAction::SignalTerm
    ));
    assert!(matches!(
        term_begin(&WaitStatus::CheckError),
        TermAction::SignalTerm
    ));
}

#[test]
fn termination_polls_until_the_deadline_then_forces() {
    assert!(matches!(
        term_poll(&WaitStatus::StillRunning, false),
        TermAction::Sleep
    ));
    assert!(matches!(
        term_poll(&WaitStatus::StillRunning, true),
        TermAction::ForceKill
    ));
    assert!(matches!(
        term_poll(&WaitStatus::Exited(None), false),
        TermAction::Finished
    ));
    assert!(matches!(
        term_poll(&WaitStatus::CheckError, false),
        TermAction::ForceKill
    ));
}

#[test]
fn accepted_secret_is_released_exactly_once() {
    let mut gate = CredentialGate::new();
    gate.begin_prompt();
    gate.resolve(true);
    assert!(matches!(gate.phase, GatePhase::Accepted));
    assert!(gate.consume_for_relay());
    assert!(!gate.consume_for_relay());
    assert!(matches!(gate.phase, GatePhase::Relayed));
}

#[test]
fn dismissed_prompt_yields_no_secret() {
    let mut gate = CredentialGate::new();
    gate.begin_prompt();
    gate.resolve(false);
    assert!(matches!(gate.phase, GatePhase::Cancelled));
    assert!(!gate.consume_for_relay());
    gate.reset();
    assert!(matches!(gate.phase, GatePhase::Idle));
}
