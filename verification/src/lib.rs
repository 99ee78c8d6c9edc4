//! Instrumentation for units of work: a task wrapper that observes an
//! operation's lifecycle (start, elapsed time, outcome) through structured
//! log events without altering the operation's result or error.

pub mod event;
pub mod name;
pub mod outside;
pub mod task;

pub use event::LogEvent;
pub use event::Severity;
pub use name::clean_fn;
pub use task::InstrumentedTask;
pub use task::Phase;
pub use task::TracingTask;
pub use task::run_sync;
