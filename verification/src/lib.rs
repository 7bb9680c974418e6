//! Session orchestration for an interactive, line-oriented native debugger.
//!
//! The debugger prints free-form text with no reply marker and no structured
//! state notifications.  This crate imposes structure on that stream: it
//! decides where one logical reply ends (`framer`), infers the session's
//! lifecycle state from the reply text (`state`), holds each operation to the
//! state it requires and chooses the raw command to send (`dispatch`), and
//! keeps the single live session with its process-ownership discipline
//! (`session`).  All of it is pure computation over the command and response
//! text; the process itself, its pipes and the timers live with the caller,
//! which feeds lines and events in and performs the chosen actions.

pub mod dispatch;
pub mod framer;
pub mod session;
pub mod state;
pub mod text;
