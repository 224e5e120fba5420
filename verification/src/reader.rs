//! One step of a stream reader. Each of the two readers pumps its stream
//! line by line: every line becomes a log event at once — output is visible
//! before the process exits — a read error becomes one diagnostic event and
//! ends that reader alone, and end of stream ends it silently. A reader never
//! declares the process exited; that is the supervisor's and the liveness
//! check's job.
use crate::event::{Event, EventView};
use vstd::prelude::*;
use vstd::string::StringExecFns;

verus! {

/// What one read from the stream produced.
pub enum ReadStep {
    /// A complete line, without its terminator.
    Line(String),
    /// The read failed; the report it gave.
    ReadError(String),
    /// The stream is closed.
    EndOfStream,
}

/// Decides what one read means: the event to emit, if any, and whether the
/// reader keeps going.
pub fn reader_step(step: ReadStep) -> (r: (Option<Event>, bool))
    ensures
        match step {
            ReadStep::Line(line) => r.1 && (r.0 matches Some(e) && e@ == EventView::Append(line@)),
            ReadStep::ReadError(report) => !r.1 && (r.0 matches Some(e) && e@ == EventView::Append(
                "log read error: "@ + report@,
            )),
            ReadStep::EndOfStream => !r.1 && r.0 is None,
        },
{
    match step {
        ReadStep::Line(line) => (Some(Event::AppendLog(line)), true),
        ReadStep::ReadError(report) => {
            let mut diagnostic: String = "log read error: ".to_owned();
            diagnostic.append(report.as_str());
            (Some(Event::AppendLog(diagnostic)), false)
        },
        ReadStep::EndOfStream => (None, false),
    }
}

} // verus!
