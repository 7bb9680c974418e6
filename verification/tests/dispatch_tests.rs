use ferroscope::dispatch::break_outcome;
use ferroscope::dispatch::break_succeeded;
use ferroscope::dispatch::eval_followup;
use ferroscope::dispatch::eval_method_name;
use ferroscope::dispatch::eval_outcome;
use ferroscope::dispatch::eval_succeeded;
use ferroscope::dispatch::load_outcome;
use ferroscope::dispatch::passthrough_outcome;
use ferroscope::dispatch::plan_request;
use ferroscope::dispatch::reject_outcome;
use ferroscope::dispatch::run_outcome;
use ferroscope::dispatch::state_name;
use ferroscope::dispatch::EvalMethod;
use ferroscope::dispatch::Plan;
use ferroscope::dispatch::Request;
use ferroscope::state::SessionState;

fn sent_command(p: Plan) -> String {
    match p {
        Plan::Send(cmd) => cmd,
        Plan::Reject { error, .. } => panic!("rejected: {}", error),
    }
}

fn rejection(p: Plan) -> (String, SessionState) {
    match p {
        Plan::Send(cmd) => panic!("sent: {}", cmd),
        Plan::Reject { error, state } => (error, state),
    }
}

#[test]
fn rejected_operations_report_actual_state_and_send_nothing() {
    // Every operation with an unmet precondition yields a rejection that
    // carries the actual state; a rejection holds no command to send.
    let cases = [
        (Request::Continue, SessionState::NotLoaded),
        (Request::Step, SessionState::Running),
        (Request::StepInto, SessionState::Loaded),
        (Request::StepOut, SessionState::NotLoaded),
        (Request::Eval { expression: "x".to_string() }, SessionState::Running),
        (Request::Backtrace, SessionState::Loaded),
    ];
    for (req, state) in cases {
        let (error, actual) = rejection(plan_request(&req, state));
        assert_eq!(actual, state);
        let o = reject_outcome(error, actual);
        assert!(!o.success);
        assert_eq!(o.state, Some(state));
        assert!(o.output.is_none());
    }
}

#[test]
fn break_before_any_load_still_sends() {
    // No precondition on setting a breakpoint: the command goes out even
    // from NotLoaded; the debugger's own error text then decides success.
    let cmd = sent_command(plan_request(
        &Request::Break { location: "main".to_string() },
        SessionState::NotLoaded,
    ));
    assert_eq!(cmd, "breakpoint set --name main");
    let o = break_outcome("main", "error: unable to find any functions named 'main'\n");
    assert!(!o.success);
    assert_eq!(o.location, Some("main".to_string()));
}

#[test]
fn break_succeeds_when_reply_resolves_a_location() {
    let reply = "Breakpoint 1: where = demo`main at main.rs:2:1, address = 0x1000\n";
    assert!(break_succeeded(reply));
    assert!(!break_succeeded("error: no such function\n"));
    assert!(!break_succeeded("Breakpoint 1: no locations (pending).\n"));
    let o = break_outcome("main", reply);
    assert!(o.success);
    assert_eq!(o.output, Some(reply.trim().to_string()));
}

#[test]
fn continue_from_loaded_launches() {
    let cmd = sent_command(plan_request(&Request::Continue, SessionState::Loaded));
    assert_eq!(cmd, "process launch");
}

#[test]
fn continue_from_stopped_resumes() {
    let cmd = sent_command(plan_request(&Request::Continue, SessionState::Stopped));
    assert_eq!(cmd, "process continue");
}

#[test]
fn continue_while_running_is_rejected_as_already_running() {
    let (error, state) = rejection(plan_request(&Request::Continue, SessionState::Running));
    assert!(error.contains("already running"));
    assert_eq!(state, SessionState::Running);
}

#[test]
fn continue_after_termination_is_rejected_as_finished() {
    for s in [SessionState::Completed, SessionState::Crashed] {
        let (error, state) = rejection(plan_request(&Request::Continue, s));
        assert!(error.contains("finished"));
        assert_eq!(state, s);
    }
}

#[test]
fn continue_without_program_names_the_cure() {
    let (error, state) = rejection(plan_request(&Request::Continue, SessionState::NotLoaded));
    assert!(error.contains("No program loaded"));
    assert_eq!(state, SessionState::NotLoaded);
}

#[test]
fn step_from_stopped_sends_step_over() {
    let cmd = sent_command(plan_request(&Request::Step, SessionState::Stopped));
    assert_eq!(cmd, "thread step-over");
    let o = run_outcome(SessionState::Stopped, &None, "frame #0: demo`main at main.rs:4:1\n");
    assert!(o.success);
}

#[test]
fn step_variants_send_their_own_commands() {
    assert_eq!(sent_command(plan_request(&Request::StepInto, SessionState::Stopped)), "thread step-in");
    assert_eq!(sent_command(plan_request(&Request::StepOut, SessionState::Stopped)), "thread step-out");
    assert_eq!(sent_command(plan_request(&Request::Backtrace, SessionState::Stopped)), "thread backtrace");
    assert_eq!(sent_command(plan_request(&Request::ListBreakpoints, SessionState::NotLoaded)), "breakpoint list");
}

#[test]
fn eval_builds_expression_command() {
    let cmd = sent_command(plan_request(
        &Request::Eval { expression: "my_struct.field + 42".to_string() },
        SessionState::Stopped,
    ));
    assert_eq!(cmd, "expression my_struct.field + 42");
}

#[test]
fn eval_falls_back_exactly_on_error_or_undeclared() {
    assert_eq!(
        eval_followup("x", "error: use of undeclared identifier 'x'\n"),
        Some("frame variable x".to_string()),
    );
    assert_eq!(
        eval_followup("v", "warning: undeclared identifier fallback\n"),
        Some("frame variable v".to_string()),
    );
    // A clean first answer sends no second command.
    assert_eq!(eval_followup("x", "(int) $0 = 42\n"), None);
}

#[test]
fn eval_outcome_records_method_and_success() {
    let ok = eval_outcome("x", "(int) $0 = 42\n", EvalMethod::Expression);
    assert!(ok.success);
    assert_eq!(ok.method, Some(EvalMethod::Expression));
    assert_eq!(ok.expression, Some("x".to_string()));
    assert_eq!(ok.output, Some("(int) $0 = 42".to_string()));

    let bad = eval_outcome("x", "error: no variable\n", EvalMethod::FrameVariable);
    assert!(!bad.success);
    assert_eq!(bad.method, Some(EvalMethod::FrameVariable));
    assert!(eval_succeeded("(int) v = 1"));
    assert!(!eval_succeeded("error: nope"));
}

#[test]
fn method_and_state_names_match_the_reported_vocabulary() {
    assert_eq!(eval_method_name(EvalMethod::Expression), "expression");
    assert_eq!(eval_method_name(EvalMethod::FrameVariable), "frame_variable");
    assert_eq!(state_name(SessionState::NotLoaded), "not_loaded");
    assert_eq!(state_name(SessionState::Loaded), "loaded");
    assert_eq!(state_name(SessionState::Running), "running");
    assert_eq!(state_name(SessionState::Stopped), "stopped");
    assert_eq!(state_name(SessionState::Crashed), "crashed");
    assert_eq!(state_name(SessionState::Completed), "completed");
}

#[test]
fn load_outcome_reports_loaded_with_path() {
    let o = load_outcome("Current executable set to '/tmp/demo' (x86_64).\n", "/tmp/demo");
    assert!(o.success);
    assert_eq!(o.state, Some(SessionState::Loaded));
    assert_eq!(o.output, Some("Current executable set to '/tmp/demo' (x86_64).".to_string()));
    assert_eq!(o.binary_path, Some("/tmp/demo".to_string()));
    assert!(o.error.is_none());
}

#[test]
fn run_outcome_carries_the_known_location() {
    let o = run_outcome(
        SessionState::Stopped,
        &Some("main.rs:10:5".to_string()),
        "Process 1 stopped\n",
    );
    assert!(o.success);
    assert_eq!(o.state, Some(SessionState::Stopped));
    assert_eq!(o.location, Some("main.rs:10:5".to_string()));
}

#[test]
fn passthrough_keeps_output_and_succeeds() {
    let o = passthrough_outcome("  frame #0\nframe #1\n");
    assert!(o.success);
    assert_eq!(o.output, Some("frame #0\nframe #1".to_string()));
    assert!(o.state.is_none());
}
