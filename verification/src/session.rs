//! The live session, the registry that holds at most one, and the
//! process-ownership discipline around replacing it.
//!
//! A session binds one spawned debugger subprocess to its tracked lifecycle
//! state, the path of the binary under debug, and the last location a stop
//! reported.  The subprocess itself — the pipes, the child handle — lives
//! with the caller; this module keeps everything the caller must decide
//! from: the state, the load decision, and the rule that the old subprocess is
//! terminated before a new one is spawned.

use crate::dispatch::clone_opt_string;
use crate::dispatch::Outcome;
use crate::state::extract_location;
use crate::state::spec_location_of;
use crate::state::spec_state_after;
use crate::state::track_state;
use crate::state::SessionState;
use crate::text::contains_seq;
use crate::text::contains_sub;
use crate::text::find_seq;
use crate::text::find_sub;
use crate::text::lemma_find_seq_first;
use crate::text::starts_with_seq;
use crate::text::starts_with_sub;
use vstd::prelude::*;
use vstd::string::StringExecFns;

verus! {

/// One debugging session: the tracked side of one debugger subprocess.
///
/// The binary path is fixed for the session's life; the location is
/// meaningful only while the state is `Stopped`.
pub struct Session {
    /// Current lifecycle state.
    pub state: SessionState,
    /// Path of the binary under debug, fixed at creation.
    pub binary_path: String,
    /// Last location a stop reported, if any.
    pub current_location: Option<String>,
}

impl Session {
    /// A fresh session for `binary_path`, before the target is created.
    pub fn new(binary_path: String) -> (s: Session)
        ensures
            s.state == SessionState::NotLoaded,
            s.binary_path@ == binary_path@,
            s.current_location is None,
    {
        Session { state: SessionState::NotLoaded, binary_path, current_location: None }
    }

    /// Records that the target was created from the session's binary.
    pub fn mark_loaded(&mut self)
        ensures
            final(self).state == SessionState::Loaded,
            final(self).binary_path == old(self).binary_path,
            final(self).current_location == old(self).current_location,
    {
        self.state = SessionState::Loaded;
    }

    /// Absorbs one framed reply: the state follows the pattern table, and
    /// the location is re-extracted exactly when the reply reports a stop
    /// reason and a location can be found in it.  The binary path never
    /// changes.
    pub fn absorb_response(&mut self, response: &str)
        ensures
            final(self).state == spec_state_after(response@, old(self).state),
            final(self).binary_path == old(self).binary_path,
            contains_seq(response@, "stop reason"@) && spec_location_of(response@) is Some ==> (
            final(self).current_location matches Some(l) && Some(l@) == spec_location_of(
                response@,
            )),
            !(contains_seq(response@, "stop reason"@) && spec_location_of(response@) is Some)
                ==> final(self).current_location == old(self).current_location,
    {
        let st = track_state(response, self.state);
        self.state = st;
        if contains_sub(response, "stop reason") {
            match extract_location(response) {
                Some(loc) => {
                    self.current_location = Some(loc);
                },
                None => {},
            }
        }
    }
}

/// The state a registry reports: the session's state, or `NotLoaded` when
/// none exists.
pub open spec fn spec_registry_state(r: Registry) -> SessionState {
    match r.session {
        None => SessionState::NotLoaded,
        Some(s) => s.state,
    }
}

/// Holds at most one session.  Replacing it goes through [`Registry::take`]
/// — the caller terminates the old subprocess it gets back before spawning
/// a new one, the order [`lemma_spawn_requires_terminate`] is about.
pub struct Registry {
    /// The current session, if any.
    pub session: Option<Session>,
}

impl Registry {
    /// An empty registry.
    pub fn new() -> (r: Registry)
        ensures
            r.session is None,
    {
        Registry { session: None }
    }

    /// The state every state-dependent check uses: absence of a session
    /// reads as `NotLoaded`.
    pub fn current_state(&self) -> (s: SessionState)
        ensures
            s == spec_registry_state(*self),
    {
        match &self.session {
            None => SessionState::NotLoaded,
            Some(sess) => sess.state,
        }
    }

    /// Removes and returns the current session, leaving the registry
    /// empty.  The caller owns the teardown of the returned session's
    /// subprocess.
    pub fn take(&mut self) -> (prev: Option<Session>)
        ensures
            final(self).session is None,
            prev == old(self).session,
    {
        self.session.take()
    }

    /// Installs a session into an empty registry.
    pub fn install(&mut self, s: Session)
        requires
            old(self).session is None,
        ensures
            final(self).session == Some(s),
    {
        self.session = Some(s);
    }

    /// The read-only snapshot: state, last location and binary path, with
    /// no command issued.  Absence of a session reads as `NotLoaded` with
    /// neither location nor path.
    pub fn snapshot(&self) -> (o: Outcome)
        ensures
            o.success,
            o.state == Some(spec_registry_state(*self)),
            self.session matches Some(s) ==> o.location == s.current_location && (
            o.binary_path matches Some(b) && b@ == s.binary_path@),
            self.session is None ==> o.location is None && o.binary_path is None,
            o.output is None,
            o.expression is None,
            o.method is None,
            o.error is None,
    {
        let (state, location, binary_path) = match &self.session {
            None => (SessionState::NotLoaded, None, None),
            Some(sess) => (
                sess.state,
                clone_opt_string(&sess.current_location),
                Some(sess.binary_path.clone()),
            ),
        };
        Outcome {
            success: true,
            state: Some(state),
            output: None,
            location,
            binary_path,
            expression: None,
            method: None,
            error: None,
        }
    }
}

/// What a load does with a requested path: reject a missing one before
/// anything is spawned, build a directory into a binary first, or attach
/// an existing binary directly.
pub enum LoadPlan {
    /// The path does not exist: fail without spawning anything.
    Reject { error: String },
    /// The path is a source directory: build it, then attach the binary.
    BuildThenAttach,
    /// The path is an existing binary: attach it.
    AttachBinary,
}

/// The load decision.  A missing path is rejected — and only a missing path —
/// so no subprocess is ever spawned for one.
pub fn load_plan(path_exists: bool, is_dir: bool, path: &str) -> (p: LoadPlan)
    ensures
        p is Reject <==> !path_exists,
        p matches LoadPlan::Reject { error } ==> error@ == "Path does not exist: "@ + path@,
        path_exists && is_dir ==> p is BuildThenAttach,
        path_exists && !is_dir ==> p is AttachBinary,
{
    if !path_exists {
        LoadPlan::Reject { error: "Path does not exist: ".to_owned().concat(path) }
    } else if is_dir {
        LoadPlan::BuildThenAttach
    } else {
        LoadPlan::AttachBinary
    }
}

/// The part a line yields between its first pair of double quotes — or
/// after the first quote, when no second one follows.
pub open spec fn quoted_part_of(line: Seq<char>) -> Option<Seq<char>> {
    match find_seq(line, "\""@) {
        None => None,
        Some(i) => {
            let rest = line.subrange(i + "\""@.len(), line.len() as int);
            match find_seq(rest, "\""@) {
                None => Some(rest),
                Some(j) => Some(
                    rest.subrange(
                        0,
                        if 0 <= j <= rest.len() {
                            j
                        } else {
                            0
                        },
                    ),
                ),
            }
        },
    }
}

/// The package name a build manifest declares: the quoted part of the
/// first line that starts with `"name = "`, if that line has one.
pub open spec fn spec_manifest_name(text: Seq<char>) -> Option<Seq<char>>
    decreases text.len(),
{
    if text.len() == 0 {
        None
    } else {
        let k = match find_seq(text, "\n"@) {
            Some(k) => k,
            None => text.len() as int,
        };
        let line_end = if 0 <= k <= text.len() {
            k
        } else {
            text.len() as int
        };
        let line = text.subrange(0, line_end);
        if starts_with_seq(line, "name = "@) {
            quoted_part_of(line)
        } else {
            let next = if line_end < text.len() {
                line_end + 1
            } else {
                text.len() as int
            };
            spec_manifest_name(text.subrange(next, text.len() as int))
        }
    }
}

/// The quoted part of one line, per [`quoted_part_of`].
fn quoted_part(line: &str) -> (r: Option<String>)
    ensures
        r is Some <==> quoted_part_of(line@) is Some,
        r matches Some(s) ==> quoted_part_of(line@) == Some(s@),
{
    let f = find_sub(line, "\"");
    proof {
        lemma_find_seq_first(line@, "\""@);
    }
    match f {
        None => None,
        Some(i) => {
            let n = line.unicode_len();
            proof {
                reveal_strlit("\"");
            }
            let rest = line.substring_char(i + 1, n);
            let g = find_sub(rest, "\"");
            proof {
                lemma_find_seq_first(rest@, "\""@);
            }
            match g {
                None => Some(rest.to_owned()),
                Some(j) => Some(rest.substring_char(0, j).to_owned()),
            }
        },
    }
}

/// Resolves the package name from a build manifest's text, per
/// [`spec_manifest_name`].  The caller runs the build itself and reads the
/// manifest; only this resolution is the session's own logic.
pub fn manifest_name(text: &str) -> (r: Option<String>)
    ensures
        r is Some <==> spec_manifest_name(text@) is Some,
        r matches Some(s) ==> spec_manifest_name(text@) == Some(s@),
    decreases text@.len(),
{
    let n = text.unicode_len();
    if n == 0 {
        return None;
    }
    let fr = find_sub(text, "\n");
    proof {
        lemma_find_seq_first(text@, "\n"@);
    }
    let line_end = match fr {
        Some(k) => k,
        None => n,
    };
    let line = text.substring_char(0, line_end);
    if starts_with_sub(line, "name = ") {
        quoted_part(line)
    } else {
        let next = if line_end < n {
            line_end + 1
        } else {
            n
        };
        let rest = text.substring_char(next, n);
        manifest_name(rest)
    }
}

/// The path a successful build leaves the debug binary at, under the
/// source directory.
pub fn built_binary_path(source_dir: &str, name: &str) -> (p: String)
    ensures
        p@ == source_dir@ + "/target/debug/"@ + name@,
{
    source_dir.to_owned().concat("/target/debug/").concat(name)
}

/// One observable action on debugger subprocesses.
pub enum ProcessEvent {
    /// The owned subprocess was terminated (idempotent: allowed with none
    /// owned too).
    Terminated,
    /// A subprocess was spawned and is now owned.
    Spawned,
}

/// Whether a subprocess is owned after `ev`, given whether one was owned
/// before.
pub open spec fn owned_after(owned: bool, ev: ProcessEvent) -> bool {
    match ev {
        ProcessEvent::Terminated => false,
        ProcessEvent::Spawned => true,
    }
}

/// Whether `ev` is permitted while `owned` says whether a subprocess is
/// owned: spawning is permitted only with none owned.
pub open spec fn event_allowed(owned: bool, ev: ProcessEvent) -> bool {
    match ev {
        ProcessEvent::Terminated => true,
        ProcessEvent::Spawned => !owned,
    }
}

/// Whether a subprocess is owned after the whole of `tr`, starting from
/// none owned.
pub open spec fn owned_after_trace(tr: Seq<ProcessEvent>) -> bool
    decreases tr.len(),
{
    if tr.len() == 0 {
        false
    } else {
        owned_after(owned_after_trace(tr.drop_last()), tr.last())
    }
}

/// Whether every event of `tr` was permitted in the state it met.
pub open spec fn trace_allowed(tr: Seq<ProcessEvent>) -> bool
    decreases tr.len(),
{
    if tr.len() == 0 {
        true
    } else {
        trace_allowed(tr.drop_last()) && event_allowed(owned_after_trace(tr.drop_last()), tr.last())
    }
}

/// Each event of an allowed trace was permitted where it stands.
proof fn lemma_trace_allowed_at(tr: Seq<ProcessEvent>, j: int)
    requires
        trace_allowed(tr),
        0 <= j < tr.len(),
    ensures
        event_allowed(owned_after_trace(tr.subrange(0, j)), tr[j]),
    decreases tr.len(),
{
    if j == tr.len() - 1 {
        assert(tr.drop_last() =~= tr.subrange(0, j));
    } else {
        lemma_trace_allowed_at(tr.drop_last(), j);
        assert(tr.drop_last().subrange(0, j) =~= tr.subrange(0, j));
    }
}

/// After a spawn, a subprocess is owned.
proof fn lemma_owned_after_spawn(tr: Seq<ProcessEvent>, j: int)
    requires
        0 < j <= tr.len(),
        tr[j - 1] is Spawned,
    ensures
        owned_after_trace(tr.subrange(0, j)),
{
    let p = tr.subrange(0, j);
    assert(p.last() == tr[j - 1]);
}

/// No two subprocesses are owned at once: in any permitted course of
/// events, a termination stands between any two spawns — replacing a
/// session terminates the previous subprocess before the new one starts.
pub proof fn lemma_spawn_requires_terminate(tr: Seq<ProcessEvent>, i: int, j: int)
    requires
        trace_allowed(tr),
        0 <= i < j < tr.len(),
        tr[i] is Spawned,
        tr[j] is Spawned,
    ensures
        exists|k: int| i < k < j && tr[k] is Terminated,
{
    if !(exists|k: int| i < k < j && tr[k] is Terminated) {
        assert(tr[j - 1] is Spawned) by {
            if j - 1 > i {
                assert(!(i < j - 1 < j && tr[j - 1] is Terminated));
            }
        }
        lemma_owned_after_spawn(tr, j);
        lemma_trace_allowed_at(tr, j);
        assert(false);
    }
}

} // verus!
