//! Runs a container engine inside a Linux guest on a Windows host as if it were
//! installed natively: the decisions of every invocation, proved, as functions
//! from plain values to plain values. The program around the library spawns the
//! commands these functions describe and hands back what came of them; the
//! `session` module ties one invocation together as a state machine.

pub mod command;
pub mod readiness;
pub mod options;
pub mod rewrite;
pub mod dispatch;
pub mod session;
