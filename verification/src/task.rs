//! The instrumentation wrapper and its execution protocol.
//!
//! A [`TracingTask`] pairs a span with a longevity flag. Instrumenting it
//! yields an [`InstrumentedTask`], a state machine that walks
//! `Constructed -> Running -> Completed` exactly once: `begin` produces the
//! start event (for long-lived tasks only) and starts the clock, the driver
//! runs the wrapped operation, and `finish` produces the single completion
//! event and hands the operation's outcome back unchanged.

use vstd::prelude::*;
use vstd::string::StringExecFns;

use crate::event::LogEvent;
use crate::event::Severity;
use crate::event::is_completion_event;
use crate::event::is_failure_event;
use crate::event::is_start_event;
use crate::event::is_success_event;
use crate::outside::clock_elapsed;
use crate::outside::clock_now;
use crate::outside::duration_as_nanos;
use crate::outside::error_debug;

verus! {

/// Where a task stands in its lifecycle. Transitions only move forward:
/// a completed task cannot run again.
#[derive(Clone, Copy, Debug, PartialEq, Eq, Structural)]
pub enum Phase {
    Constructed,
    Running,
    Completed,
}

/// A unit of work awaiting instrumentation: the span its events are
/// attributed to, and whether its start should be announced.
pub struct TracingTask {
    span: tracing::Span,
    is_long_lived: bool,
}

impl TracingTask {
    /// Whether the wrapped work announces its start with a start event.
    pub closed spec fn long_lived(&self) -> bool {
        self.is_long_lived
    }

    /// The span the task's events are attributed to.
    pub closed spec fn spec_span(&self) -> tracing::Span {
        self.span
    }

    /// A long-lived task: its start is logged because it is expected to
    /// take meaningful time.
    pub fn new(span: tracing::Span) -> (t: TracingTask)
        ensures
            t.long_lived(),
            t.spec_span() == span,
    {
        TracingTask { span, is_long_lived: true }
    }

    /// A short-lived task: only its completion is recorded.
    pub fn new_short_lived(span: tracing::Span) -> (t: TracingTask)
        ensures
            !t.long_lived(),
            t.spec_span() == span,
    {
        TracingTask { span, is_long_lived: false }
    }

    /// The instrumentation transform: consumes the task (so it can be
    /// instrumented only once) and yields the execution state machine in
    /// its initial phase.
    pub fn instrument(self) -> (t: InstrumentedTask)
        ensures
            t.long_lived() == self.long_lived(),
            t.spec_span() == self.spec_span(),
            t.phase() == Phase::Constructed,
            t.can_begin(),
    {
        InstrumentedTask {
            span: self.span,
            is_long_lived: self.is_long_lived,
            started_at: None,
            phase: Phase::Constructed,
        }
    }
}

/// An instrumented execution in flight. The driver calls `begin`, runs the
/// wrapped operation inside the span, then calls `finish` with the outcome;
/// the phase field makes each step possible exactly once.
pub struct InstrumentedTask {
    span: tracing::Span,
    is_long_lived: bool,
    started_at: Option<std::time::Instant>,
    phase: Phase,
}

impl InstrumentedTask {
    /// Whether this execution announces its start with a start event.
    pub closed spec fn long_lived(&self) -> bool {
        self.is_long_lived
    }

    /// Where this execution stands in its lifecycle.
    pub closed spec fn phase(&self) -> Phase {
        self.phase
    }

    /// The span the execution's events are attributed to.
    pub closed spec fn spec_span(&self) -> tracing::Span {
        self.span
    }

    /// `begin` is allowed exactly in the initial phase.
    pub open spec fn can_begin(&self) -> bool {
        self.phase() == Phase::Constructed
    }

    /// `finish` is allowed exactly while running; by then a start timestamp
    /// has been recorded.
    pub closed spec fn can_finish(&self) -> bool {
        &&& self.phase == Phase::Running
        &&& self.started_at is Some
    }

    /// The span this execution's events are attributed to; the driver
    /// enters it around the wrapped operation.
    pub fn span(&self) -> (r: &tracing::Span)
        ensures
            *r == self.spec_span(),
    {
        &self.span
    }

    /// The current phase, for an unverified driver that wants to check a
    /// step is allowed before taking it.
    pub fn current_phase(&self) -> (p: Phase)
        ensures
            p == self.phase(),
    {
        self.phase
    }

    /// Starts the execution: records the start timestamp and moves to the
    /// running phase. Returns the start event to emit — present if and only
    /// if the task is long-lived.
    pub fn begin(&mut self) -> (ev: Option<LogEvent>)
        requires
            old(self).can_begin(),
        ensures
            final(self).phase() == Phase::Running,
            final(self).can_finish(),
            final(self).long_lived() == old(self).long_lived(),
            final(self).spec_span() == old(self).spec_span(),
            ev is Some <==> old(self).long_lived(),
            ev matches Some(e) ==> is_start_event(e),
    {
        let ev = if self.is_long_lived {
            Some(LogEvent {
                severity: Severity::Info,
                message: String::from_str("Starting..."),
                elapsed_nanos: None,
                error: None,
            })
        } else {
            None
        };
        self.started_at = Some(clock_now());
        self.phase = Phase::Running;
        ev
    }

    /// Completes the execution with the wrapped operation's outcome. Moves
    /// to the terminal phase and returns the single completion event to
    /// emit, together with the outcome itself, unchanged: the same value on
    /// success, the same error on failure. The event carries the elapsed
    /// time since `begin`, and on failure the error's rendering.
    pub fn finish<R>(&mut self, outcome: Result<R, anyhow::Error>) -> (r: (
        LogEvent,
        Result<R, anyhow::Error>,
    ))
        requires
            old(self).can_finish(),
        ensures
            final(self).phase() == Phase::Completed,
            final(self).long_lived() == old(self).long_lived(),
            final(self).spec_span() == old(self).spec_span(),
            r.1 == outcome,
            outcome is Ok ==> is_success_event(r.0),
            outcome is Err ==> is_failure_event(r.0),
            is_completion_event(r.0),
    {
        let elapsed_nanos: u128 = match &self.started_at {
            Some(t0) => duration_as_nanos(&clock_elapsed(t0)),
            None => {
                proof {
                    assert(false);
                }
                0
            },
        };
        self.phase = Phase::Completed;
        match outcome {
            Ok(v) => {
                let ev = LogEvent {
                    severity: Severity::Info,
                    message: String::from_str("Finished [OK]..."),
                    elapsed_nanos: Some(elapsed_nanos),
                    error: None,
                };
                (ev, Ok(v))
            },
            Err(e) => {
                let text = error_debug(&e);
                let ev = LogEvent {
                    severity: Severity::Error,
                    message: String::from_str("Finished with"),
                    elapsed_nanos: Some(elapsed_nanos),
                    error: Some(text),
                };
                (ev, Err(e))
            },
        }
    }
}

/// The events one full execution asks its driver to emit, in order: the
/// start event when there is one, then the completion event.
pub open spec fn execution_events(start: Option<LogEvent>, completion: LogEvent) -> Seq<LogEvent> {
    match start {
        Some(e) => seq![e, completion],
        None => seq![completion],
    }
}

/// Law: one execution emits exactly one completion event — it is the last
/// event of the trace, and every event before it is a start event, never a
/// completion — so the start event, when present, strictly precedes it.
pub proof fn lemma_exactly_one_completion(start: Option<LogEvent>, completion: LogEvent)
    requires
        start matches Some(e) ==> is_start_event(e),
        is_completion_event(completion),
    ensures
        ({
            let evs = execution_events(start, completion);
            &&& evs.len() == if start is Some {
                2int
            } else {
                1int
            }
            &&& is_completion_event(evs.last())
            &&& forall|i: int|
                0 <= i < evs.len() - 1 ==> is_start_event(#[trigger] evs[i])
                    && !is_completion_event(evs[i])
        }),
{
}

/// Law: the completed phase is terminal — neither `begin` nor `finish` is
/// enabled on a completed task, so an execution cannot be repeated.
pub proof fn lemma_completed_is_terminal(t: InstrumentedTask)
    requires
        t.phase() == Phase::Completed,
    ensures
        !t.can_begin(),
        !t.can_finish(),
{
}

/// Runs a one-shot callable under full instrumentation: instruments the
/// task, hands the start event (if any) to `emit_start`, runs `op` inside
/// the task's span — entered for the whole call and released on every exit
/// path — then hands the completion event to `emit_done` and returns `op`'s
/// outcome unchanged: the result is exactly a value `op` itself produced.
pub fn run_sync<R, F: FnOnce() -> Result<R, anyhow::Error>, ES: FnOnce(LogEvent), ED: FnOnce(
    LogEvent,
)>(task: TracingTask, op: F, emit_start: ES, emit_done: ED) -> (r: Result<R, anyhow::Error>)
    requires
        call_requires(op, ()),
        forall|e: LogEvent| is_start_event(e) ==> call_requires(emit_start, (e,)),
        forall|e: LogEvent| is_completion_event(e) ==> call_requires(emit_done, (e,)),
    ensures
        call_ensures(op, (), r),
{
    let mut t = task.instrument();
    match t.begin() {
        Some(ev) => emit_start(ev),
        None => (),
    }
    let outcome = t.span().in_scope(op);
    let (ev, r) = t.finish(outcome);
    emit_done(ev);
    r
}

} // verus!
