//! The single consumer of the event bus. Only it mutates the log buffer and
//! the UI-facing running flag, so no lock guards that state. Each event is
//! applied exactly once, in arrival order; the outcome tells the unverified
//! rim what else must happen (redraw shape, durable mirror write, dropping
//! the dead process handle).
use crate::event::{code_view, exit_message, exit_message_spec, Event, EventView};
use crate::log_buffer::{push_line_spec, LogBuffer};
use vstd::string::StringExecFns;
use vstd::prelude::*;

verus! {

/// The consumer-owned state: the bounded log and the running flag.
pub struct UiSink {
    pub logs: LogBuffer,
    pub running: bool,
    /// Whether appended lines are also mirrored to the durable log file.
    pub mirror_enabled: bool,
}

/// What the rim must do after one event was applied.
pub struct ApplyOutcome {
    /// The render surface must rebuild its whole snapshot (an eviction
    /// happened); otherwise drawing the appended delta suffices.
    pub rebuild: bool,
    /// The line that was appended, if any — the rim mirrors it to the
    /// durable log file when mirroring is enabled.
    pub appended: Option<String>,
    /// The supervised process is gone: the rim must drop its handle.
    pub clear_process: bool,
}

/// The log contents after one event: captured lines and exit summaries are
/// appended under the buffer's eviction rule, running-state changes leave the
/// log alone.
pub open spec fn sink_logs_after(logs: Seq<Seq<char>>, ev: EventView) -> Seq<Seq<char>> {
    match ev {
        EventView::Append(line) => push_line_spec(logs, line),
        EventView::Exited(code) => push_line_spec(logs, exit_message_spec(code)),
        EventView::Running(_) => logs,
    }
}

/// The running flag after one event: an exit always shows stopped.
pub open spec fn sink_running_after(running: bool, ev: EventView) -> bool {
    match ev {
        EventView::Append(_) => running,
        EventView::Exited(_) => false,
        EventView::Running(b) => b,
    }
}

/// The line one event appends to the log, if any.
pub open spec fn appended_line_of(ev: EventView) -> Option<Seq<char>> {
    match ev {
        EventView::Append(line) => Some(line),
        EventView::Exited(code) => Some(exit_message_spec(code)),
        EventView::Running(_) => None,
    }
}

impl UiSink {
    /// The buffer bound that applying events preserves.
    pub open spec fn wf(&self) -> bool {
        self.logs.wf()
    }

    /// A sink with an empty log, showing stopped.
    pub fn new(mirror_enabled: bool) -> (r: UiSink)
        ensures
            r.logs@ == Seq::<Seq<char>>::empty(),
            !r.running,
            r.mirror_enabled == mirror_enabled,
            r.wf(),
    {
        UiSink { logs: LogBuffer::new(), running: false, mirror_enabled }
    }

    /// Applies one event. The log and the running flag change exactly as the
    /// event dictates; the outcome reports the appended line, whether the
    /// render surface must rebuild, and whether the process handle must be
    /// dropped.
    pub fn apply_event(&mut self, ev: Event) -> (out: ApplyOutcome)
        requires
            old(self).wf(),
        ensures
            final(self).wf(),
            final(self).logs@ == sink_logs_after(old(self).logs@, ev@),
            final(self).running == sink_running_after(old(self).running, ev@),
            final(self).mirror_enabled == old(self).mirror_enabled,
            out.appended matches Some(line) <==> appended_line_of(ev@) is Some,
            out.appended matches Some(line) ==> appended_line_of(ev@) == Some(line@),
            out.clear_process == (ev@ is Exited),
            out.rebuild == (appended_line_of(ev@) is Some && old(self).logs@.len()
                >= crate::log_buffer::MAX_LOG_LINES),
    {
        match ev {
            Event::AppendLog(line) => {
                let copy = line.clone();
                let rebuild = self.logs.push_line(line);
                ApplyOutcome { rebuild, appended: Some(copy), clear_process: false }
            },
            Event::ProcessExited(code) => {
                let line = exit_message(code);
                let copy = line.clone();
                let rebuild = self.logs.push_line(line);
                self.running = false;
                ApplyOutcome { rebuild, appended: Some(copy), clear_process: true }
            },
            Event::SetRunning(running) => {
                self.running = running;
                ApplyOutcome { rebuild: false, appended: None, clear_process: false }
            },
        }
    }
}

/// The status line under the log view: the line count, and what just
/// happened to the buffer when there is something to say.
pub open spec fn logs_status_spec(line_count: int, detail: Option<Seq<char>>) -> Seq<char> {
    match detail {
        Some(text) => crate::text::dec_rep(line_count) + " lines | "@ + text,
        None => crate::text::dec_rep(line_count) + " lines"@,
    }
}

/// Builds the status line under the log view.
pub fn logs_status_text(line_count: usize, detail: Option<&str>) -> (r: String)
    requires
        line_count <= u32::MAX,
    ensures
        r@ == logs_status_spec(line_count as int, match detail {
            Some(text) => Some(text@),
            None => None,
        }),
{
    let mut line = crate::text::u32_to_string(line_count as u32);
    match detail {
        Some(text) => {
            line.append(" lines | ");
            line.append(text);
        },
        None => {
            line.append(" lines");
        },
    }
    line
}

/// The log contents after a whole sequence of events, applied in order.
pub open spec fn sink_logs_after_all(logs: Seq<Seq<char>>, evs: Seq<EventView>) -> Seq<Seq<char>>
    decreases evs.len(),
{
    if evs.len() == 0 {
        logs
    } else {
        sink_logs_after_all(sink_logs_after(logs, evs[0]), evs.drop_first())
    }
}

/// The lines a sequence of append events carries, in order.
pub open spec fn lines_of(evs: Seq<EventView>) -> Seq<Seq<char>>
    decreases evs.len(),
{
    if evs.len() == 0 {
        Seq::empty()
    } else {
        match evs[0] {
            EventView::Append(line) => seq![line] + lines_of(evs.drop_first()),
            _ => lines_of(evs.drop_first()),
        }
    }
}

proof fn lemma_sink_logs_as_push_all(logs: Seq<Seq<char>>, evs: Seq<EventView>)
    requires
        forall|i: int| 0 <= i < evs.len() ==> evs[i] is Append,
    ensures
        sink_logs_after_all(logs, evs) == crate::log_buffer::push_all_spec(logs, lines_of(evs)),
    decreases evs.len(),
{
    if evs.len() > 0 {
        assert(evs[0] is Append);
        let line = evs[0]->Append_0;
        assert(sink_logs_after(logs, evs[0]) == push_line_spec(logs, line));
        lemma_sink_logs_as_push_all(push_line_spec(logs, line), evs.drop_first());
        assert(lines_of(evs) =~= seq![line] + lines_of(evs.drop_first()));
        assert(lines_of(evs).drop_first() =~= lines_of(evs.drop_first()));
        assert(lines_of(evs)[0] == line);
    }
}

/// Ordering: a consumer draining only appended lines — one producer, no exit
/// and no running-state event between them — observes them in produced order.
/// Within the buffer's capacity the log holds exactly those lines; past it,
/// exactly the most recent ones, still in produced order.
pub proof fn lemma_consumer_preserves_order(evs: Seq<EventView>)
    requires
        forall|i: int| 0 <= i < evs.len() ==> evs[i] is Append,
    ensures
        sink_logs_after_all(Seq::empty(), evs) =~= lines_of(evs).subrange(
            lines_of(evs).len() - crate::log_buffer::retained_count(lines_of(evs).len() as int),
            lines_of(evs).len() as int,
        ),
        lines_of(evs).len() <= crate::log_buffer::MAX_LOG_LINES ==> sink_logs_after_all(
            Seq::empty(),
            evs,
        ) =~= lines_of(evs),
{
    lemma_sink_logs_as_push_all(Seq::empty(), evs);
    crate::log_buffer::lemma_fifo_retention(lines_of(evs));
}

} // verus!
