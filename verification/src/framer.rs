//! Reply framing: deciding where one logical debugger reply ends.
//!
//! The debugger emits no reply marker, so the end of a reply is judged
//! heuristically after each arriving line: the idle prompt always ends a
//! reply, and for some command categories a characteristic phrase does too.
//! The caller owns the stream and the clock; it feeds the framer one
//! [`ReadEvent`] at a time and appends nothing itself.  End of stream and
//! the expired deadline are terminal events, so a reply never outlives the
//! deadline by more than the caller's polling interval: a framer driven in
//! a loop that stops when `step` reports completion can never block on a
//! stream that withholds its completion marker.
//!
//! The heuristics are a trade-off, faithful to one debugger's phrasing: a
//! coincidental match may end a reply early, and unfamiliar phrasing stalls
//! the reply until the deadline.

use crate::text::contains_seq;
use crate::text::contains_sub;
use crate::text::starts_with_seq;
use crate::text::starts_with_sub;
use crate::text::str_eq;
use crate::text::trim_seq;
use crate::text::trim_sub;
use vstd::prelude::*;
use vstd::string::StringExecFns;

verus! {

/// Seconds a reply may take before partial output is returned.
pub const RESPONSE_TIMEOUT_SECS: u64 = 10;

/// Milliseconds between deadline checks while no line arrives.
pub const POLL_TICK_MILLIS: u64 = 100;

/// Whether an arriving `line` ends the reply to `command`: the idle prompt
/// alone on the line, or the per-category phrase the debugger prints when
/// such a command has taken effect.
pub open spec fn spec_line_completes(line: Seq<char>, command: Seq<char>) -> bool {
    ||| trim_seq(line) == "(lldb)"@
    ||| (starts_with_seq(command, "process launch"@) && contains_seq(line, "Process"@) && (
    contains_seq(line, "launched"@) || contains_seq(line, "stopped"@)))
    ||| (starts_with_seq(command, "process continue"@) && contains_seq(line, "Process"@) && (
    contains_seq(line, "stopped"@) || contains_seq(line, "exited"@)))
    ||| (starts_with_seq(command, "breakpoint set"@) && contains_seq(line, "Breakpoint"@)
        && contains_seq(line, ":"@))
    ||| ((starts_with_seq(command, "expression"@) || starts_with_seq(command, "frame variable"@))
        && (contains_seq(line, "="@) || contains_seq(line, "error:"@)))
}

/// Judges whether `line` ends the reply to `command`, per
/// [`spec_line_completes`].
pub fn line_completes_response(line: &str, command: &str) -> (b: bool)
    ensures
        b == spec_line_completes(line@, command@),
{
    let t = trim_sub(line);
    if str_eq(t, "(lldb)") {
        return true;
    }
    if starts_with_sub(command, "process launch") && contains_sub(line, "Process") && (
    contains_sub(line, "launched") || contains_sub(line, "stopped")) {
        return true;
    }
    if starts_with_sub(command, "process continue") && contains_sub(line, "Process") && (
    contains_sub(line, "stopped") || contains_sub(line, "exited")) {
        return true;
    }
    if starts_with_sub(command, "breakpoint set") && contains_sub(line, "Breakpoint")
        && contains_sub(line, ":") {
        return true;
    }
    if (starts_with_sub(command, "expression") || starts_with_sub(command, "frame variable")) && (
    contains_sub(line, "=") || contains_sub(line, "error:")) {
        return true;
    }
    false
}

/// One observation the caller makes on the reply stream.
pub enum ReadEvent {
    /// A line arrived (with its terminator, as the stream delivered it).
    Line(String),
    /// The stream ended: the process has died.
    Eof,
    /// The deadline elapsed with the reply still incomplete.
    DeadlineExceeded,
}

/// Events after which no further reading is permitted.
pub open spec fn terminal_event(ev: ReadEvent) -> bool {
    ev is Eof || ev is DeadlineExceeded
}

/// What one step leaves accumulated: a line is appended whole, end of
/// stream adds nothing, an expired deadline adds the truncation note.
pub open spec fn spec_step_acc(acc: Seq<char>, ev: ReadEvent) -> Seq<char> {
    match ev {
        ReadEvent::Line(l) => acc + l@,
        ReadEvent::Eof => acc,
        ReadEvent::DeadlineExceeded => acc + "[TIMEOUT - Command may still be processing]"@,
    }
}

/// Whether one step ends the frame: a line ends it exactly when
/// [`spec_line_completes`] says so; every terminal event ends it.
pub open spec fn spec_step_done(command: Seq<char>, ev: ReadEvent) -> bool {
    match ev {
        ReadEvent::Line(l) => spec_line_completes(l@, command),
        ReadEvent::Eof => true,
        ReadEvent::DeadlineExceeded => true,
    }
}

/// How many events a framer run consumes from `evs`: events are taken in
/// order until one ends the frame or they run out.
pub open spec fn spec_run_len(command: Seq<char>, evs: Seq<ReadEvent>) -> int
    decreases evs.len(),
{
    if evs.len() == 0 {
        0
    } else if spec_step_done(command, evs[0]) {
        1
    } else {
        1 + spec_run_len(command, evs.drop_first())
    }
}

/// The framer never blocks on a stream that withholds its completion
/// marker: fed events in order, it stops at the first terminal event at
/// the latest.  The caller's clock raises `DeadlineExceeded` within the
/// timeout plus one polling tick, which bounds every run in time.
pub proof fn lemma_run_stops_at_terminal(command: Seq<char>, evs: Seq<ReadEvent>, k: int)
    requires
        0 <= k < evs.len(),
        terminal_event(evs[k]),
    ensures
        spec_run_len(command, evs) <= k + 1,
    decreases k,
{
    if !spec_step_done(command, evs[0]) {
        lemma_run_stops_at_terminal(command, evs.drop_first(), k - 1);
    }
}

/// Accumulates one logical reply to one issued command.
pub struct Framer {
    /// The raw command the reply answers.
    pub command: String,
    /// The output accumulated so far.
    pub acc: String,
    /// Whether the reply has been judged complete.
    pub done: bool,
}

impl Framer {
    /// Starts an empty frame for the reply to `command`.
    pub fn new(command: String) -> (f: Framer)
        ensures
            f.command@ == command@,
            f.acc@ == Seq::<char>::empty(),
            !f.done,
    {
        Framer { command, acc: String::new(), done: false }
    }

    /// Absorbs one read event.  A line is appended whole and ends the frame
    /// exactly when [`spec_line_completes`] says so; end of stream ends the
    /// frame as it stands; an expired deadline ends it with the partial
    /// output annotated as truncated.  Every terminal event ends the frame.
    pub fn step(&mut self, ev: ReadEvent) -> (done: bool)
        requires
            !old(self).done,
        ensures
            final(self).command@ == old(self).command@,
            done == final(self).done,
            final(self).acc@ == spec_step_acc(old(self).acc@, ev),
            final(self).done == spec_step_done(old(self).command@, ev),
            terminal_event(ev) ==> done,
    {
        match ev {
            ReadEvent::Line(l) => {
                self.acc.append(l.as_str());
                let c = line_completes_response(l.as_str(), self.command.as_str());
                self.done = c;
                c
            },
            ReadEvent::Eof => {
                self.done = true;
                true
            },
            ReadEvent::DeadlineExceeded => {
                self.acc.append("[TIMEOUT - Command may still be processing]");
                self.done = true;
                true
            },
        }
    }
}

} // verus!
