//! Verified core of a TCP-to-serial bridge: many TCP clients contend for one
//! serial device; an arbiter hands out an exclusive lease, each connection runs
//! a claim / forward / idle-detect / release cycle, and a supervisor tracks the
//! session tasks until a one-shot cancellation signal drains everything.
//!
//! The asynchronous I/O loops themselves live outside this crate; the library
//! holds the decision logic as explicit state machines, with contracts that pin
//! down every transition.

pub mod arbiter;
pub mod cancel;
pub mod lifecycle;
pub mod session;
pub mod supervisor;
