//! The process supervisor: the decisions of the start/stop lifecycle for the
//! single supervised process of a profile. At most one process is active at a
//! time; a stop request takes ownership of it at once, so a later start is
//! accepted even before the old process has finished dying; the periodic
//! liveness check is the fallback that notices an exit no reader reported.
use crate::escalation::{ensure_sudo_stdin_flag, has_stdin_flag, is_escalation, is_sudo_command};
use crate::event::{code_view, exited_count, lemma_exited_count_add, Event, EventView};
use crate::tokenize::{shell_split, split_command_line};
use vstd::prelude::*;
use vstd::string::StringExecFns;

verus! {

/// Why a start request was refused.
#[derive(Debug)]
pub enum StartError {
    /// A process is already supervised; a second one is rejected, not queued.
    AlreadyRunning,
    /// The command string tokenizes to nothing.
    EmptyCommand,
    /// The command string's quoting is malformed.
    ParseError,
    /// The system refused to create the process; the report it gave.
    SpawnError(String),
    /// Escalation was detected and the secret prompt was dismissed.
    CredentialCancelled,
}

/// Everything a caller needs to create the process: the executable plus its
/// literal arguments, and whether a secret must be relayed on its input
/// stream.
pub struct SpawnPlan {
    pub args: Vec<String>,
    pub needs_secret: bool,
}

/// Supervisor state: whether a supervised process is currently believed live.
pub struct Supervisor {
    pub active: bool,
}

/// The argument vector a start request hands to spawn, given the tokens of
/// the command: an escalation invocation is rewritten to request its secret
/// on its input stream, anything else runs as written.
pub open spec fn effective_args(toks: Seq<Seq<char>>) -> Seq<Seq<char>> {
    if is_escalation(toks) && !has_stdin_flag(toks) {
        toks.insert(1, "-S"@)
    } else {
        toks
    }
}

/// The events the consumer observes for a successful spawn: the running state
/// first, then the informational line.
pub open spec fn start_events() -> Seq<EventView> {
    seq![EventView::Running(true), EventView::Append("command started"@)]
}

/// The events the asynchronous half of a stop emits: exactly one exit event
/// when a process had to be terminated, none otherwise.
pub open spec fn stop_events(had: bool, code: Option<int>) -> Seq<EventView> {
    if had {
        seq![EventView::Exited(code)]
    } else {
        Seq::empty()
    }
}

/// What a stop request does: it always leaves no active process, and reports
/// whether there was one to terminate.
pub open spec fn take_spec(s: Supervisor) -> (Supervisor, bool) {
    (Supervisor { active: false }, s.active)
}

/// What the liveness check reported for the supervised process.
pub enum PollOutcome {
    /// The process is still there.
    StillRunning,
    /// The process is gone, with the code the system reported.
    Exited(Option<i32>),
    /// The check itself failed; the report it gave. The poller retries on its
    /// next tick.
    CheckFailed(String),
}

impl Supervisor {
    /// A supervisor with no process.
    pub fn new() -> (r: Supervisor)
        ensures
            !r.active,
    {
        Supervisor { active: false }
    }

    /// Decides a start request: refuses it while a process is active, then
    /// tokenizes the command string and, for an escalation invocation,
    /// rewrites the argument vector to request the secret on the input
    /// stream. No process exists yet when this returns.
    pub fn plan_start(&self, command: &str) -> (r: Result<SpawnPlan, StartError>)
        ensures
            self.active ==> (r matches Err(e) && e is AlreadyRunning),
            !self.active ==> match shell_split(command@) {
                None => (r matches Err(e) && e is ParseError),
                Some(toks) => if toks.len() == 0 {
                    (r matches Err(e) && e is EmptyCommand)
                } else {
                    (r matches Ok(p) && p.args.deep_view() == effective_args(toks)
                        && p.needs_secret == is_escalation(toks) && p.args@.len() >= 1)
                },
            },
    {
        if self.active {
            return Err(StartError::AlreadyRunning);
        }
        match split_command_line(command) {
            None => Err(StartError::ParseError),
            Some(mut args) => {
                if args.len() == 0 {
                    return Err(StartError::EmptyCommand);
                }
                proof {
                    assert(args.deep_view().len() == args@.len());
                }
                let needs_secret = is_sudo_command(&args);
                if needs_secret {
                    ensure_sudo_stdin_flag(&mut args);
                }
                Ok(SpawnPlan { args, needs_secret })
            },
        }
    }

    /// Records that the planned process was created, and yields the events
    /// the consumer must observe for it, in order.
    pub fn note_spawned(&mut self) -> (evs: Vec<Event>)
        requires
            !old(self).active,
        ensures
            final(self).active,
            evs.deep_view() == start_events(),
    {
        self.active = true;
        let mut evs: Vec<Event> = Vec::new();
        evs.push(Event::SetRunning(true));
        evs.push(Event::AppendLog("command started".to_owned()));
        proof {
            assert(evs.deep_view() =~= start_events());
        }
        evs
    }

    /// A stop request: takes the supervised process away at once — a later
    /// start is accepted even before termination completes — and reports
    /// whether there was a process to terminate. When nothing runs this is a
    /// no-op.
    pub fn take_for_stop(&mut self) -> (had: bool)
        ensures
            (*final(self), had) == take_spec(*old(self)),
    {
        let had = self.active;
        self.active = false;
        had
    }

    /// The end of the termination protocol: exactly one exit event when a
    /// process had been taken for termination, no event otherwise.
    pub fn finish_stop(had: bool, code: Option<i32>) -> (evs: Vec<Event>)
        ensures
            evs.deep_view() == stop_events(had, code_view(code)),
    {
        let mut evs: Vec<Event> = Vec::new();
        if had {
            evs.push(Event::ProcessExited(code));
            proof {
                assert(evs.deep_view() =~= stop_events(had, code_view(code)));
            }
        } else {
            proof {
                assert(evs.deep_view() =~= stop_events(had, code_view(code)));
            }
        }
        evs
    }

    /// One tick of the liveness check. An observed exit is the authoritative
    /// notification for a silent death: it emits the exit event exactly once
    /// and frees the slot for a new start. A failing check only reports a
    /// diagnostic line and leaves the process supervised for the next tick.
    pub fn poll_tick(&mut self, outcome: PollOutcome) -> (ev: Option<Event>)
        ensures
            !old(self).active ==> *final(self) == *old(self) && ev is None,
            old(self).active ==> match outcome {
                PollOutcome::StillRunning => *final(self) == *old(self) && ev is None,
                PollOutcome::Exited(code) => !final(self).active && (ev matches Some(e)
                    && e@ == EventView::Exited(code_view(code))),
                PollOutcome::CheckFailed(report) => *final(self) == *old(self) && (
                ev matches Some(e) && e@ == EventView::Append(
                    "failed to check command status: "@ + report@,
                )),
            },
    {
        if !self.active {
            return None;
        }
        match outcome {
            PollOutcome::StillRunning => None,
            PollOutcome::Exited(code) => {
                self.active = false;
                Some(Event::ProcessExited(code))
            },
            PollOutcome::CheckFailed(report) => {
                let mut line: String = "failed to check command status: ".to_owned();
                line.append(report.as_str());
                Some(Event::AppendLog(line))
            },
        }
    }
}

/// The single human-readable line a refused or failed start surfaces.
pub fn start_error_message(e: &StartError) -> (r: String)
    ensures
        match e {
            StartError::AlreadyRunning => r@ == "command is already running"@,
            StartError::EmptyCommand => r@ == "command is empty"@,
            StartError::ParseError => r@ == "command parse error: missing closing quote"@,
            StartError::SpawnError(report) => r@ == "failed to start command: "@ + report@,
            StartError::CredentialCancelled => r@ == "sudo password prompt cancelled"@,
        },
{
    match e {
        StartError::AlreadyRunning => "command is already running".to_owned(),
        StartError::EmptyCommand => "command is empty".to_owned(),
        StartError::ParseError => "command parse error: missing closing quote".to_owned(),
        StartError::SpawnError(report) => {
            let mut s: String = "failed to start command: ".to_owned();
            s.append(report.as_str());
            s
        },
        StartError::CredentialCancelled => "sudo password prompt cancelled".to_owned(),
    }
}

/// A successful start followed at once by a stop yields exactly one exit
/// event across the whole exchange, and leaves no supervised process.
pub proof fn lemma_start_stop_one_exit(sup: Supervisor, code: Option<int>)
    requires
        !sup.active,
    ensures
        ({
            let started = Supervisor { active: true };
            let (stopped, had) = take_spec(started);
            exited_count(start_events() + stop_events(had, code)) == 1 && !stopped.active
        }),
{
    let started = Supervisor { active: true };
    let (stopped, had) = take_spec(started);
    assert(exited_count(start_events()) == 0) by {
        reveal_with_fuel(exited_count, 4);
        let evs = start_events();
        assert(evs.drop_first() =~= seq![EventView::Append("command started"@)]);
        assert(evs.drop_first().drop_first() =~= Seq::<EventView>::empty());
    }
    assert(had);
    assert(exited_count(stop_events(had, code)) == 1) by {
        reveal_with_fuel(exited_count, 3);
        let evs = stop_events(had, code);
        assert(evs.drop_first() =~= Seq::<EventView>::empty());
    }
    lemma_exited_count_add(start_events(), stop_events(had, code));
}

/// Stopping is idempotent: two stop requests in a row, with no start between
/// them, emit at most one exit event — the second finds nothing to terminate.
pub proof fn lemma_stop_idempotent(sup: Supervisor, c1: Option<int>, c2: Option<int>)
    ensures
        ({
            let (s1, had1) = take_spec(sup);
            let (s2, had2) = take_spec(s1);
            !had2 && exited_count(stop_events(had1, c1) + stop_events(had2, c2)) <= 1
        }),
{
    let (s1, had1) = take_spec(sup);
    let (s2, had2) = take_spec(s1);
    reveal_with_fuel(exited_count, 3);
    assert(stop_events(had2, c2) =~= Seq::<EventView>::empty());
    if had1 {
        let evs = stop_events(had1, c1);
        assert(evs.drop_first() =~= Seq::<EventView>::empty());
    }
    lemma_exited_count_add(stop_events(had1, c1), stop_events(had2, c2));
}

} // verus!
