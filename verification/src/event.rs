//! The typed events that flow from the producers (supervisor and stream
//! readers) to the single consumer, and the log lines synthesized for exits.
use crate::text::{i32_to_string, int_rep};
use vstd::prelude::*;
use vstd::string::StringExecFns;

verus! {

/// One event on the bus. Produced by the supervisor or a stream reader,
/// consumed exactly once, in arrival order.
pub enum Event {
    /// A captured or synthesized log line.
    AppendLog(String),
    /// The supervised process is gone; the code is what the system reported.
    ProcessExited(Option<i32>),
    /// The start/stop affordance should show this running state.
    SetRunning(bool),
}

/// The mathematical shape of an event: lines as character sequences, codes as
/// unbounded integers.
pub enum EventView {
    Append(Seq<char>),
    Exited(Option<int>),
    Running(bool),
}

/// An exit code as seen by specifications.
pub open spec fn code_view(code: Option<i32>) -> Option<int> {
    match code {
        Some(c) => Some(c as int),
        None => None,
    }
}

impl View for Event {
    type V = EventView;

    open spec fn view(&self) -> EventView {
        match self {
            Event::AppendLog(line) => EventView::Append(line@),
            Event::ProcessExited(code) => EventView::Exited(code_view(*code)),
            Event::SetRunning(running) => EventView::Running(*running),
        }
    }
}

impl DeepView for Event {
    type V = EventView;

    open spec fn deep_view(&self) -> EventView {
        self.view()
    }
}

/// The summary line the consumer appends when an exit event arrives.
pub open spec fn exit_message_spec(code: Option<int>) -> Seq<char> {
    match code {
        Some(c) => "command exited with code "@ + int_rep(c),
        None => "command exited"@,
    }
}

/// Builds the summary line for an exit event.
pub fn exit_message(code: Option<i32>) -> (r: String)
    ensures
        r@ == exit_message_spec(code_view(code)),
{
    match code {
        Some(c) => {
            let mut s: String = "command exited with code ".to_owned();
            let digits = i32_to_string(c);
            s.append(digits.as_str());
            s
        },
        None => "command exited".to_owned(),
    }
}

/// How many exit events a sequence holds.
pub open spec fn exited_count(evs: Seq<EventView>) -> int
    decreases evs.len(),
{
    if evs.len() == 0 {
        0
    } else {
        (if evs[0] is Exited {
            1int
        } else {
            0int
        }) + exited_count(evs.drop_first())
    }
}

/// Exit events count across concatenation.
pub proof fn lemma_exited_count_add(a: Seq<EventView>, b: Seq<EventView>)
    ensures
        exited_count(a + b) == exited_count(a) + exited_count(b),
    decreases a.len(),
{
    if a.len() == 0 {
        assert(a + b =~= b);
    } else {
        assert((a + b).drop_first() =~= a.drop_first() + b);
        lemma_exited_count_add(a.drop_first(), b);
    }
}

} // verus!
