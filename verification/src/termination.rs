//! The two-phase shutdown protocol: ask nicely, wait out a bounded grace
//! period, then force. These are the decisions of that timeout state machine;
//! the unverified rim performs the signalling, sleeping and waiting and feeds
//! each observation back in.
use vstd::prelude::*;

verus! {

/// What a non-blocking exit check reported.
pub enum WaitStatus {
    /// The process has exited, with the code the system reported.
    Exited(Option<i32>),
    /// The process is still alive.
    StillRunning,
    /// The check itself failed (a process-table race, say).
    CheckError,
}

/// What the protocol asks the rim to do next.
pub enum TermAction {
    /// Send the cooperative termination signal, then start polling.
    SignalTerm,
    /// Sleep briefly and check again.
    Sleep,
    /// The grace period is over or the check failed: kill outright.
    ForceKill,
    /// The process is confirmed gone; emit the exit event.
    Finished,
}

/// Opens the protocol: a process already gone needs nothing; anything else
/// gets the cooperative signal first.
pub fn term_begin(status: &WaitStatus) -> (action: TermAction)
    ensures
        match status {
            WaitStatus::Exited(_) => action is Finished,
            WaitStatus::StillRunning => action is SignalTerm,
            WaitStatus::CheckError => action is SignalTerm,
        },
{
    match status {
        WaitStatus::Exited(_) => TermAction::Finished,
        WaitStatus::StillRunning => TermAction::SignalTerm,
        WaitStatus::CheckError => TermAction::SignalTerm,
    }
}

/// One polling decision after the signal was sent. The protocol can never
/// wait past its deadline: once the grace period has elapsed, the decision is
/// to finish or to force-kill, never to sleep again.
pub fn term_poll(status: &WaitStatus, deadline_passed: bool) -> (action: TermAction)
    ensures
        match status {
            WaitStatus::Exited(_) => action is Finished,
            WaitStatus::CheckError => action is ForceKill,
            WaitStatus::StillRunning => if deadline_passed {
                action is ForceKill
            } else {
                action is Sleep
            },
        },
        deadline_passed ==> !(action is Sleep),
{
    match status {
        WaitStatus::Exited(_) => TermAction::Finished,
        WaitStatus::CheckError => TermAction::ForceKill,
        WaitStatus::StillRunning => if deadline_passed {
            TermAction::ForceKill
        } else {
            TermAction::Sleep
        },
    }
}

} // verus!
