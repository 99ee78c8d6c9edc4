//! Structured log events that an instrumented task asks its caller to emit.
//!
//! The library decides *which* events an execution produces and what they
//! carry; the unverified driver around the library forwards them to the
//! logging backend. An execution produces at most one start event and
//! exactly one completion event (success or failure).

use vstd::prelude::*;

verus! {

/// Severity of an emitted event: completions of failed operations are logged
/// at error severity, everything else at informational severity.
#[derive(Clone, Copy, Debug, PartialEq, Eq, Structural)]
pub enum Severity {
    Info,
    Error,
}

/// One structured event. `elapsed_nanos` is present exactly on completion
/// events; `error` is present exactly on failure completions and carries the
/// wrapped error's diagnostic rendering.
#[derive(Clone, Debug, PartialEq)]
pub struct LogEvent {
    pub severity: Severity,
    pub message: String,
    pub elapsed_nanos: Option<u128>,
    pub error: Option<String>,
}

/// Message carried by the start event of a long-lived task.
pub open spec fn start_message() -> Seq<char> {
    "Starting..."@
}

/// Message carried by the completion event of a successful operation.
pub open spec fn success_message() -> Seq<char> {
    "Finished [OK]..."@
}

/// Message carried by the completion event of a failed operation.
pub open spec fn failure_message() -> Seq<char> {
    "Finished with"@
}

/// The event emitted before a long-lived task starts running. It carries no
/// elapsed time and no error.
pub open spec fn is_start_event(e: LogEvent) -> bool {
    &&& e.severity == Severity::Info
    &&& e.message@ == start_message()
    &&& e.elapsed_nanos is None
    &&& e.error is None
}

/// The completion event of an operation that succeeded: informational, with
/// an elapsed measurement and no error.
pub open spec fn is_success_event(e: LogEvent) -> bool {
    &&& e.severity == Severity::Info
    &&& e.message@ == success_message()
    &&& e.elapsed_nanos is Some
    &&& e.error is None
}

/// The completion event of an operation that failed: error severity, with an
/// elapsed measurement and the error's rendering.
pub open spec fn is_failure_event(e: LogEvent) -> bool {
    &&& e.severity == Severity::Error
    &&& e.message@ == failure_message()
    &&& e.elapsed_nanos is Some
    &&& e.error is Some
}

/// A completion event reports a terminal outcome, success or failure; the
/// two are mutually exclusive and carry an elapsed measurement.
pub open spec fn is_completion_event(e: LogEvent) -> bool {
    is_success_event(e) || is_failure_event(e)
}

} // verus!
