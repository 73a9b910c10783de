//! Decisions of a supervisor for a single tunnelling-client child process:
//! when a start is admitted, what is written and launched, what a stop hands
//! back, and how the child's output lines become leveled log events.

pub mod forwarder;
pub mod history;
pub mod line;
pub mod log;
pub mod supervisor;
