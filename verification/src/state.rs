//! State inference over framed response text.
//!
//! The debugger announces lifecycle changes only as free-form phrases inside
//! its output.  The tracker here is a pure function of that text: it scans
//! for the documented substrings and yields the new lifecycle state, and —
//! when the response reports a stop reason — a best-effort source location.
//! Being a pure function of the text alone, it is deterministic by
//! construction: identical response text yields identical results, whatever
//! the timing or the call history.

use crate::text::contains_seq;
use crate::text::contains_sub;
use crate::text::find_seq;
use crate::text::find_sub;
use crate::text::first_token;
use crate::text::first_token_seq;
use crate::text::lemma_find_seq_first;
use vstd::prelude::*;

verus! {

/// Lifecycle of a debugging session.
#[derive(Clone, Copy, Debug, PartialEq, Eq, Structural)]
pub enum SessionState {
    /// No program has been loaded.
    NotLoaded,
    /// A program is loaded but not yet running.
    Loaded,
    /// The program is executing.
    Running,
    /// The program is suspended, e.g. at a breakpoint.
    Stopped,
    /// The program crashed or hit a fatal signal.
    Crashed,
    /// The program ran to completion.
    Completed,
}

/// The state a response implies: the first matching row of the pattern
/// table wins, and a response matching no row leaves the state unchanged.
pub open spec fn spec_state_after(text: Seq<char>, prev: SessionState) -> SessionState {
    if contains_seq(text, "Process"@) && contains_seq(text, "launched"@) {
        SessionState::Running
    } else if contains_seq(text, "Process"@) && contains_seq(text, "stopped"@) {
        SessionState::Stopped
    } else if contains_seq(text, "Process"@) && contains_seq(text, "exited"@) {
        SessionState::Completed
    } else if contains_seq(text, "crashed"@) || contains_seq(text, "SIGSEGV"@) || contains_seq(
        text,
        "SIGABRT"@,
    ) {
        SessionState::Crashed
    } else {
        prev
    }
}

/// Maps a framed response to the state it implies.
pub fn track_state(text: &str, prev: SessionState) -> (s: SessionState)
    ensures
        s == spec_state_after(text@, prev),
{
    if contains_sub(text, "Process") {
        if contains_sub(text, "launched") {
            return SessionState::Running;
        }
        if contains_sub(text, "stopped") {
            return SessionState::Stopped;
        }
        if contains_sub(text, "exited") {
            return SessionState::Completed;
        }
    }
    if contains_sub(text, "crashed") || contains_sub(text, "SIGSEGV") || contains_sub(
        text,
        "SIGABRT",
    ) {
        return SessionState::Crashed;
    }
    prev
}

/// The location a single line yields: the first whitespace-delimited token
/// of the text after the line's first `" at "`, if both exist.
pub open spec fn line_token_of(line: Seq<char>) -> Option<Seq<char>> {
    match find_seq(line, " at "@) {
        None => None,
        Some(i) => first_token_seq(line.subrange(i + " at "@.len(), line.len() as int)),
    }
}

/// The location a whole response yields: its lines are scanned top to
/// bottom and the first line that yields a token wins.
pub open spec fn spec_location_of(text: Seq<char>) -> Option<Seq<char>>
    decreases text.len(),
{
    if text.len() == 0 {
        None
    } else {
        let k = match find_seq(text, "\n"@) {
            Some(k) => k,
            None => text.len() as int,
        };
        let line_end = if 0 <= k <= text.len() {
            k
        } else {
            text.len() as int
        };
        let line = text.subrange(0, line_end);
        match line_token_of(line) {
            Some(t) => Some(t),
            None => {
                let next = if line_end < text.len() {
                    line_end + 1
                } else {
                    text.len() as int
                };
                spec_location_of(text.subrange(next, text.len() as int))
            },
        }
    }
}

/// The location one line yields, per [`line_token_of`].
fn line_token(line: &str) -> (r: Option<String>)
    ensures
        r is Some <==> line_token_of(line@) is Some,
        r matches Some(t) ==> line_token_of(line@) == Some(t@),
{
    let f = find_sub(line, " at ");
    proof {
        lemma_find_seq_first(line@, " at "@);
    }
    match f {
        None => None,
        Some(i) => {
            let n = line.unicode_len();
            proof {
                reveal_strlit(" at ");
            }
            let seg = line.substring_char(i + 4, n);
            first_token(seg)
        },
    }
}

/// Scans a response's lines for a `"file:line"`-like token after `" at "`,
/// per [`spec_location_of`].
pub fn extract_location(text: &str) -> (r: Option<String>)
    ensures
        r is Some <==> spec_location_of(text@) is Some,
        r matches Some(s) ==> spec_location_of(text@) == Some(s@),
    decreases text@.len(),
{
    let n = text.unicode_len();
    if n == 0 {
        return None;
    }
    let fr = find_sub(text, "\n");
    proof {
        lemma_find_seq_first(text@, "\n"@);
    }
    let line_end = match fr {
        Some(k) => k,
        None => n,
    };
    let line = text.substring_char(0, line_end);
    match line_token(line) {
        Some(tok) => Some(tok),
        None => {
            let next = if line_end < n {
                line_end + 1
            } else {
                n
            };
            let rest = text.substring_char(next, n);
            extract_location(rest)
        },
    }
}

/// Determinism of the tracker: the inferred state and location are
/// functions of the response text alone — identical text gives identical
/// results, independent of timing or of any call history.
pub proof fn lemma_tracker_deterministic(
    a: Seq<char>,
    b: Seq<char>,
    prev: SessionState,
)
    requires
        a == b,
    ensures
        spec_state_after(a, prev) == spec_state_after(b, prev),
        spec_location_of(a) == spec_location_of(b),
{
}

} // verus!
