use ferroscope::framer::line_completes_response;
use ferroscope::framer::Framer;
use ferroscope::framer::ReadEvent;

#[test]
fn prompt_line_completes_any_command() {
    assert!(line_completes_response("(lldb)", "thread backtrace"));
    assert!(line_completes_response("  (lldb) \n", "anything"));
    assert!(!line_completes_response("x (lldb)", "anything"));
}

#[test]
fn launch_completes_on_process_launched() {
    assert!(line_completes_response("Process 123 launched: '/tmp/demo'\n", "process launch"));
    assert!(line_completes_response("Process 123 stopped\n", "process launch"));
    assert!(!line_completes_response("Launching...\n", "process launch"));
}

#[test]
fn continue_completes_on_stop_or_exit() {
    assert!(line_completes_response("Process 123 stopped\n", "process continue"));
    assert!(line_completes_response("Process 123 exited with status = 0\n", "process continue"));
    assert!(!line_completes_response("Process 123 resuming\n", "process continue"));
}

#[test]
fn breakpoint_completes_on_breakpoint_with_separator() {
    assert!(line_completes_response(
        "Breakpoint 1: where = demo`main + 12 at main.rs:3:5, address = 0x1000\n",
        "breakpoint set --name main",
    ));
    assert!(!line_completes_response("pending breakpoint\n", "breakpoint set --name main"));
}

#[test]
fn expression_completes_on_equals_or_error() {
    assert!(line_completes_response("(int) $0 = 42\n", "expression x"));
    assert!(line_completes_response("error: use of undeclared identifier 'x'\n", "expression x"));
    assert!(line_completes_response("(int) v = 7\n", "frame variable v"));
    assert!(!line_completes_response("evaluating...\n", "expression x"));
}

#[test]
fn completion_is_per_command_category() {
    // A launch-style line does not end a backtrace reply.
    assert!(!line_completes_response("Process 123 launched\n", "thread backtrace"));
}

#[test]
fn framer_accumulates_lines_until_complete() {
    let mut f = Framer::new("process launch".to_string());
    let done = f.step(ReadEvent::Line("Launching target\n".to_string()));
    assert!(!done);
    let done = f.step(ReadEvent::Line("Process 9 launched: '/tmp/demo'\n".to_string()));
    assert!(done);
    assert_eq!(f.acc, "Launching target\nProcess 9 launched: '/tmp/demo'\n");
}

#[test]
fn framer_eof_is_terminal_and_keeps_partial_output() {
    let mut f = Framer::new("thread backtrace".to_string());
    assert!(!f.step(ReadEvent::Line("frame #0\n".to_string())));
    assert!(f.step(ReadEvent::Eof));
    assert_eq!(f.acc, "frame #0\n");
}

#[test]
fn framer_deadline_is_terminal_and_annotates_truncation() {
    // A stream that never emits a completion marker ends at the deadline.
    let mut f = Framer::new("thread backtrace".to_string());
    assert!(!f.step(ReadEvent::Line("frame #0\n".to_string())));
    assert!(!f.step(ReadEvent::Line("frame #1\n".to_string())));
    assert!(f.step(ReadEvent::DeadlineExceeded));
    assert_eq!(f.acc, "frame #0\nframe #1\n[TIMEOUT - Command may still be processing]");
    assert!(f.done);
}

#[test]
fn framer_starts_empty_and_not_done() {
    let f = Framer::new("breakpoint list".to_string());
    assert_eq!(f.acc, "");
    assert!(!f.done);
    assert_eq!(f.command, "breakpoint list");
}
