use tracing_task::LogEvent;
use tracing_task::Phase;
use tracing_task::Severity;
use tracing_task::TracingTask;
use tracing_task::run_sync;

#[test]
fn long_lived_success_emits_start_then_ok_completion() {
    let task = TracingTask::new(tracing::Span::none());
    let mut t = task.instrument();
    assert_eq!(t.current_phase(), Phase::Constructed);

    let start = t.begin();
    assert_eq!(t.current_phase(), Phase::Running);
    let start = start.expect("long-lived task must announce its start");
    assert_eq!(start.severity, Severity::Info);
    assert_eq!(start.message, "Starting...");
    // The start event is not a completion event: it carries no elapsed time.
    assert!(start.elapsed_nanos.is_none());
    assert!(start.error.is_none());

    let (done, r) = t.finish::<u32>(Ok(42));
    assert_eq!(t.current_phase(), Phase::Completed);
    assert_eq!(done.severity, Severity::Info);
    assert_eq!(done.message, "Finished [OK]...");
    assert!(done.elapsed_nanos.is_some());
    assert!(done.error.is_none());
    // The success value comes back identical.
    assert_eq!(r.unwrap(), 42);
}

#[test]
fn failure_emits_error_completion_and_returns_the_error() {
    let task = TracingTask::new(tracing::Span::none());
    let mut t = task.instrument();
    let _ = t.begin();

    let (done, r) = t.finish::<u32>(Err(anyhow::Error::msg("boom")));
    assert_eq!(done.severity, Severity::Error);
    assert_eq!(done.message, "Finished with");
    assert!(done.elapsed_nanos.is_some());
    let rendered = done.error.expect("failure event must carry the error text");
    assert!(rendered.contains("boom"));
    // The error comes back identical: same type, same contents.
    let e = r.expect_err("a failed operation must stay failed");
    assert_eq!(e.to_string(), "boom");
}

#[test]
fn short_lived_task_emits_no_start_event() {
    let task = TracingTask::new_short_lived(tracing::Span::none());
    let mut t = task.instrument();
    assert!(t.begin().is_none());
    let (done, r) = t.finish::<&str>(Ok("value"));
    assert_eq!(done.message, "Finished [OK]...");
    assert_eq!(r.unwrap(), "value");
}

#[test]
fn nontrivial_success_value_comes_back_unchanged() {
    let task = TracingTask::new_short_lived(tracing::Span::none());
    let mut t = task.instrument();
    let _ = t.begin();
    let payload = vec![1u64, 2, 3, 5, 8];
    let (_, r) = t.finish::<Vec<u64>>(Ok(payload.clone()));
    assert_eq!(r.unwrap(), payload);
}

#[test]
fn exactly_one_completion_event_per_execution() {
    // A full execution hands the driver the events of exactly one start
    // (long-lived only) and exactly one completion, in that order.
    let task = TracingTask::new(tracing::Span::none());
    let mut t = task.instrument();
    let mut events: Vec<LogEvent> = Vec::new();
    if let Some(ev) = t.begin() {
        events.push(ev);
    }
    let (done, _) = t.finish::<u32>(Ok(0));
    events.push(done);

    let completions: Vec<&LogEvent> =
        events.iter().filter(|e| e.elapsed_nanos.is_some()).collect();
    assert_eq!(completions.len(), 1);
    // The completion is the last event; the start event precedes it.
    assert_eq!(events.len(), 2);
    assert!(events[0].elapsed_nanos.is_none());
    assert!(events[1].elapsed_nanos.is_some());
}

#[test]
fn interleaved_tasks_stay_independent() {
    let mut a = TracingTask::new(tracing::Span::none()).instrument();
    let mut b = TracingTask::new_short_lived(tracing::Span::none()).instrument();

    let start_a = a.begin();
    let start_b = b.begin();
    assert!(start_a.is_some());
    assert!(start_b.is_none());

    let (done_b, rb) = b.finish::<u32>(Err(anyhow::Error::msg("b failed")));
    let (done_a, ra) = a.finish::<u32>(Ok(1));

    assert_eq!(done_a.severity, Severity::Info);
    assert_eq!(done_b.severity, Severity::Error);
    assert_eq!(ra.unwrap(), 1);
    assert_eq!(rb.unwrap_err().to_string(), "b failed");
    assert_eq!(a.current_phase(), Phase::Completed);
    assert_eq!(b.current_phase(), Phase::Completed);
}

#[test]
fn elapsed_reflects_wall_clock_time() {
    let task = TracingTask::new_short_lived(tracing::Span::none());
    let mut t = task.instrument();
    let _ = t.begin();
    let t0 = std::time::Instant::now();
    while t0.elapsed() < std::time::Duration::from_millis(20) {
        // busy-wait: the wrapped operation consumes at least 20ms
    }
    let (done, _) = t.finish::<u32>(Ok(0));
    assert!(done.elapsed_nanos.unwrap() >= 20_000_000);
}

#[test]
fn run_sync_returns_the_operations_value() {
    let task = TracingTask::new(tracing::Span::none());
    let mut start_ev: Option<LogEvent> = None;
    let mut done_ev: Option<LogEvent> = None;
    let r = run_sync(
        task,
        || Ok(5u32),
        |e| start_ev = Some(e),
        |e| done_ev = Some(e),
    );
    assert_eq!(r.unwrap(), 5);
    let start_ev = start_ev.expect("long-lived run must emit a start event");
    assert_eq!(start_ev.message, "Starting...");
    let done_ev = done_ev.expect("a run must emit a completion event");
    assert_eq!(done_ev.message, "Finished [OK]...");
    assert!(done_ev.elapsed_nanos.is_some());
}

#[test]
fn run_sync_propagates_the_error() {
    let task = TracingTask::new_short_lived(tracing::Span::none());
    let mut start_ev: Option<LogEvent> = None;
    let mut done_ev: Option<LogEvent> = None;
    let r = run_sync(
        task,
        || Err::<u32, anyhow::Error>(anyhow::Error::msg("sync boom")),
        |e| start_ev = Some(e),
        |e| done_ev = Some(e),
    );
    assert_eq!(r.unwrap_err().to_string(), "sync boom");
    // Short-lived: no start event was handed out.
    assert!(start_ev.is_none());
    let done_ev = done_ev.expect("a run must emit a completion event");
    assert_eq!(done_ev.severity, Severity::Error);
    assert!(done_ev.error.expect("failure carries the error text").contains("sync boom"));
}

#[test]
fn run_sync_runs_inside_the_span() {
    // The operation runs while the task's span is entered; with a disabled
    // span this is only observable as the call completing normally.
    let span = tracing::Span::none();
    let task = TracingTask::new_short_lived(span);
    let r = run_sync(task, || Ok(tracing::Span::current().is_none()), |_e| {}, |_e| {});
    assert!(r.unwrap());
}
