//! Operation dispatch: precondition checks, raw commands, result policy.
//!
//! Each high-level operation either requires a particular lifecycle state
//! or requires none.  [`plan_request`] is that check: it yields the raw
//! command to send exactly when the current state permits the operation,
//! and otherwise a rejection carrying the actual state — so a rejected
//! operation issues no command at all.  The remaining functions state the
//! per-operation result policy: when a breakpoint or an evaluation counts
//! as successful, when evaluation must fall back to the frame-variable
//! command, and how each structured result is assembled.

use crate::state::SessionState;
use crate::text::contains_seq;
use crate::text::contains_sub;
use crate::text::trim_seq;
use crate::text::trim_sub;
use vstd::prelude::*;
use vstd::string::StringExecFns;

verus! {

/// One high-level operation that issues a debugger command.
///
/// Loading a program and reading the state snapshot stand apart: the one
/// spawns a process before any command exists (see
/// [`crate::session::load_plan`]), the other issues no command at all.
pub enum Request {
    /// Set a breakpoint by function name or `file:line`.
    Break { location: String },
    /// Launch the program, or resume it from a stop.
    Continue,
    /// Step over the next line.
    Step,
    /// Step into the next call.
    StepInto,
    /// Step out of the current function.
    StepOut,
    /// Evaluate an expression or inspect a variable.
    Eval { expression: String },
    /// Show the call stack.
    Backtrace,
    /// List the breakpoints.
    ListBreakpoints,
}

/// The precondition table: the states from which each operation may issue
/// its command.
pub open spec fn request_allowed(r: Request, state: SessionState) -> bool {
    match r {
        Request::Break { .. } => true,
        Request::Continue => state == SessionState::Loaded || state == SessionState::Stopped,
        Request::Step => state == SessionState::Stopped,
        Request::StepInto => state == SessionState::Stopped,
        Request::StepOut => state == SessionState::Stopped,
        Request::Eval { .. } => state == SessionState::Stopped,
        Request::Backtrace => state == SessionState::Stopped,
        Request::ListBreakpoints => true,
    }
}

/// The raw command an allowed operation sends from `state`.
pub open spec fn spec_command_of(r: Request, state: SessionState) -> Seq<char> {
    match r {
        Request::Break { location } => "breakpoint set --name "@ + location@,
        Request::Continue => if state == SessionState::Loaded {
            "process launch"@
        } else {
            "process continue"@
        },
        Request::Step => "thread step-over"@,
        Request::StepInto => "thread step-in"@,
        Request::StepOut => "thread step-out"@,
        Request::Eval { expression } => "expression "@ + expression@,
        Request::Backtrace => "thread backtrace"@,
        Request::ListBreakpoints => "breakpoint list"@,
    }
}

/// The message a disallowed operation is rejected with from `state`.
pub open spec fn spec_reject_message(r: Request, state: SessionState) -> Seq<char> {
    match r {
        Request::Continue => if state == SessionState::Running {
            "Program is already running"@
        } else if state == SessionState::Completed || state == SessionState::Crashed {
            "Program has finished execution"@
        } else {
            "No program loaded. Use debug_run first."@
        },
        Request::Eval { .. } => "Program must be stopped (at breakpoint) to evaluate expressions"@,
        Request::Backtrace => "Program must be stopped to show backtrace"@,
        _ => "Program must be stopped at a breakpoint to step"@,
    }
}

/// What the dispatcher decides for one operation: send a command, or
/// reject without one.
pub enum Plan {
    /// The precondition holds: send this raw command.
    Send(String),
    /// The precondition fails: no command is issued, and the result
    /// reports failure together with the actual state.
    Reject { error: String, state: SessionState },
}

/// The precondition check.  A command comes out exactly when the state
/// permits the operation; otherwise a rejection carries the actual state,
/// and nothing reaches the subprocess.
pub fn plan_request(r: &Request, state: SessionState) -> (p: Plan)
    ensures
        p is Send <==> request_allowed(*r, state),
        p matches Plan::Send(cmd) ==> cmd@ == spec_command_of(*r, state),
        p matches Plan::Reject { error, state: st } ==> st == state && error@ == spec_reject_message(
            *r,
            state,
        ),
{
    match r {
        Request::Break { location } => {
            let cmd = "breakpoint set --name ".to_owned().concat(location.as_str());
            Plan::Send(cmd)
        },
        Request::Continue => {
            if state == SessionState::Loaded {
                Plan::Send("process launch".to_owned())
            } else if state == SessionState::Stopped {
                Plan::Send("process continue".to_owned())
            } else if state == SessionState::Running {
                Plan::Reject { error: "Program is already running".to_owned(), state }
            } else if state == SessionState::Completed || state == SessionState::Crashed {
                Plan::Reject { error: "Program has finished execution".to_owned(), state }
            } else {
                Plan::Reject { error: "No program loaded. Use debug_run first.".to_owned(), state }
            }
        },
        Request::Step => {
            if state == SessionState::Stopped {
                Plan::Send("thread step-over".to_owned())
            } else {
                Plan::Reject {
                    error: "Program must be stopped at a breakpoint to step".to_owned(),
                    state,
                }
            }
        },
        Request::StepInto => {
            if state == SessionState::Stopped {
                Plan::Send("thread step-in".to_owned())
            } else {
                Plan::Reject {
                    error: "Program must be stopped at a breakpoint to step".to_owned(),
                    state,
                }
            }
        },
        Request::StepOut => {
            if state == SessionState::Stopped {
                Plan::Send("thread step-out".to_owned())
            } else {
                Plan::Reject {
                    error: "Program must be stopped at a breakpoint to step".to_owned(),
                    state,
                }
            }
        },
        Request::Eval { expression } => {
            if state == SessionState::Stopped {
                let cmd = "expression ".to_owned().concat(expression.as_str());
                Plan::Send(cmd)
            } else {
                Plan::Reject {
                    error: "Program must be stopped (at breakpoint) to evaluate expressions"
                        .to_owned(),
                    state,
                }
            }
        },
        Request::Backtrace => {
            if state == SessionState::Stopped {
                Plan::Send("thread backtrace".to_owned())
            } else {
                Plan::Reject {
                    error: "Program must be stopped to show backtrace".to_owned(),
                    state,
                }
            }
        },
        Request::ListBreakpoints => Plan::Send("breakpoint list".to_owned()),
    }
}

/// What evaluation does after its first attempt: the frame-variable
/// fallback command comes out if and only if the first attempt's output
/// contains `"error:"` or `"undeclared identifier"` — otherwise no second
/// command is sent.
pub fn eval_followup(expression: &str, first_output: &str) -> (r: Option<String>)
    ensures
        r is Some <==> (contains_seq(first_output@, "error:"@) || contains_seq(
            first_output@,
            "undeclared identifier"@,
        )),
        r matches Some(c) ==> c@ == "frame variable "@ + expression@,
{
    if contains_sub(first_output, "error:") || contains_sub(first_output, "undeclared identifier") {
        Some("frame variable ".to_owned().concat(expression))
    } else {
        None
    }
}

/// Whether a final evaluation attempt's output counts as success.
pub fn eval_succeeded(output: &str) -> (b: bool)
    ensures
        b == !contains_seq(output@, "error:"@),
{
    !contains_sub(output, "error:")
}

/// Whether a breakpoint-setting reply counts as success.
pub fn break_succeeded(output: &str) -> (b: bool)
    ensures
        b == (!contains_seq(output@, "no locations"@) && !contains_seq(output@, "error:"@)),
{
    !contains_sub(output, "no locations") && !contains_sub(output, "error:")
}

/// Which command produced an evaluation's answer.
#[derive(Clone, Copy, Debug, PartialEq, Eq, Structural)]
pub enum EvalMethod {
    /// The `expression` command answered.
    Expression,
    /// The `frame variable` fallback answered.
    FrameVariable,
}

/// The name an evaluation method is reported under.
pub fn eval_method_name(m: EvalMethod) -> (r: &'static str)
    ensures
        m is Expression ==> r@ == "expression"@,
        m is FrameVariable ==> r@ == "frame_variable"@,
{
    match m {
        EvalMethod::Expression => "expression",
        EvalMethod::FrameVariable => "frame_variable",
    }
}

/// One operation's structured result.  Which fields are present follows
/// the per-operation result policy; absent ones are `None`.
pub struct Outcome {
    /// Whether the operation succeeded.
    pub success: bool,
    /// The session state the result reports.
    pub state: Option<SessionState>,
    /// The framed debugger output, trimmed.
    pub output: Option<String>,
    /// The location the result reports.
    pub location: Option<String>,
    /// The binary path the result reports.
    pub binary_path: Option<String>,
    /// The expression an evaluation answered.
    pub expression: Option<String>,
    /// Which command produced an evaluation's answer.
    pub method: Option<EvalMethod>,
    /// Why the operation failed, when it did.
    pub error: Option<String>,
}

/// A copy of an optional string.
pub fn clone_opt_string(o: &Option<String>) -> (r: Option<String>)
    ensures
        r == *o,
{
    match o {
        None => None,
        Some(s) => Some(s.clone()),
    }
}

/// The result of a rejected operation: failure, the actual state, the
/// rejection message — and nothing from the subprocess, which saw no
/// command.
pub fn reject_outcome(error: String, state: SessionState) -> (o: Outcome)
    ensures
        !o.success,
        o.state == Some(state),
        o.error matches Some(e) && e@ == error@,
        o.output is None,
        o.location is None,
        o.binary_path is None,
        o.expression is None,
        o.method is None,
{
    Outcome {
        success: false,
        state: Some(state),
        output: None,
        location: None,
        binary_path: None,
        expression: None,
        method: None,
        error: Some(error),
    }
}

/// The result of a successful load: the load output and the resolved
/// binary path, in state `Loaded`.
pub fn load_outcome(output: &str, binary_path: &str) -> (o: Outcome)
    ensures
        o.success,
        o.state == Some(SessionState::Loaded),
        o.output matches Some(out) && out@ == trim_seq(output@),
        o.binary_path matches Some(b) && b@ == binary_path@,
        o.location is None,
        o.expression is None,
        o.method is None,
        o.error is None,
{
    Outcome {
        success: true,
        state: Some(SessionState::Loaded),
        output: Some(trim_sub(output).to_owned()),
        location: None,
        binary_path: Some(binary_path.to_owned()),
        expression: None,
        method: None,
        error: None,
    }
}

/// The result of setting a breakpoint: success exactly when the reply
/// names a resolved location — neither `"no locations"` nor `"error:"`.
pub fn break_outcome(location: &str, output: &str) -> (o: Outcome)
    ensures
        o.success == (!contains_seq(output@, "no locations"@) && !contains_seq(
            output@,
            "error:"@,
        )),
        o.output matches Some(out) && out@ == trim_seq(output@),
        o.location matches Some(l) && l@ == location@,
        o.state is None,
        o.binary_path is None,
        o.expression is None,
        o.method is None,
        o.error is None,
{
    Outcome {
        success: break_succeeded(output),
        state: None,
        output: Some(trim_sub(output).to_owned()),
        location: Some(location.to_owned()),
        binary_path: None,
        expression: None,
        method: None,
        error: None,
    }
}

/// The result of a launch, resume or step that was issued: the state and
/// location the reply left behind, and the trimmed output.
pub fn run_outcome(state: SessionState, location: &Option<String>, output: &str) -> (o: Outcome)
    ensures
        o.success,
        o.state == Some(state),
        o.output matches Some(out) && out@ == trim_seq(output@),
        o.location == *location,
        o.binary_path is None,
        o.expression is None,
        o.method is None,
        o.error is None,
{
    Outcome {
        success: true,
        state: Some(state),
        output: Some(trim_sub(output).to_owned()),
        location: clone_opt_string(location),
        binary_path: None,
        expression: None,
        method: None,
        error: None,
    }
}

/// The result of an evaluation whose final attempt produced `output`:
/// success exactly when that output lacks `"error:"`, recording which
/// method answered.
pub fn eval_outcome(expression: &str, output: &str, method: EvalMethod) -> (o: Outcome)
    ensures
        o.success == !contains_seq(output@, "error:"@),
        o.expression matches Some(e) && e@ == expression@,
        o.output matches Some(out) && out@ == trim_seq(output@),
        o.method == Some(method),
        o.state is None,
        o.location is None,
        o.binary_path is None,
        o.error is None,
{
    Outcome {
        success: eval_succeeded(output),
        state: None,
        output: Some(trim_sub(output).to_owned()),
        location: None,
        binary_path: None,
        expression: Some(expression.to_owned()),
        method: Some(method),
        error: None,
    }
}

/// The result of an operation whose output is passed through unjudged:
/// the call stack or the breakpoint list.
pub fn passthrough_outcome(output: &str) -> (o: Outcome)
    ensures
        o.success,
        o.output matches Some(out) && out@ == trim_seq(output@),
        o.state is None,
        o.location is None,
        o.binary_path is None,
        o.expression is None,
        o.method is None,
        o.error is None,
{
    Outcome {
        success: true,
        state: None,
        output: Some(trim_sub(output).to_owned()),
        location: None,
        binary_path: None,
        expression: None,
        method: None,
        error: None,
    }
}

/// The lower-case name each state is reported under.
pub open spec fn spec_state_name(s: SessionState) -> Seq<char> {
    match s {
        SessionState::NotLoaded => "not_loaded"@,
        SessionState::Loaded => "loaded"@,
        SessionState::Running => "running"@,
        SessionState::Stopped => "stopped"@,
        SessionState::Crashed => "crashed"@,
        SessionState::Completed => "completed"@,
    }
}

/// The reported name of a state, per [`spec_state_name`].
pub fn state_name(s: SessionState) -> (r: &'static str)
    ensures
        r@ == spec_state_name(s),
{
    match s {
        SessionState::NotLoaded => "not_loaded",
        SessionState::Loaded => "loaded",
        SessionState::Running => "running",
        SessionState::Stopped => "stopped",
        SessionState::Crashed => "crashed",
        SessionState::Completed => "completed",
    }
}

} // verus!
