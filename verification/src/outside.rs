//! Declarations of the outside types a task carries, and the few trusted
//! calls the library makes: reading the monotonic clock, rendering an error
//! for logging, and running a callable inside a span's scope.

use vstd::prelude::*;

verus! {

/// `tracing::Span`: the scoped logging context a task is attributed to.
/// Opaque to the library; it is carried through and handed back to the
/// driver, which enters it around the wrapped operation.
#[verifier::external_type_specification]
#[verifier::external_body]
pub struct ExSpan(tracing::Span);

/// `anyhow::Error`: the opaque, caller-supplied error type of a wrapped
/// operation. The library never inspects it; it is rendered once for the
/// failure event and returned to the caller unchanged.
#[verifier::external_type_specification]
#[verifier::external_body]
pub struct ExError(anyhow::Error);

/// `std::time::Instant`: an opaque reading of the monotonic clock.
#[verifier::external_type_specification]
#[verifier::external_body]
pub struct ExInstant(std::time::Instant);

/// Relies on `tracing::Span::in_scope`: it enters the span, calls `f` exactly
/// once with no arguments, and returns `f`'s result.
pub assume_specification<F: FnOnce() -> T, T>[ tracing::Span::in_scope ](
    span: &tracing::Span,
    f: F,
) -> (r: T)
    requires
        call_requires(f, ()),
    ensures
        call_ensures(f, (), r),
;

/// Relies on `std::time::Instant::now`: a reading of the monotonic clock.
/// Nothing can be promised of the value itself.
#[verifier::external_body]
pub(crate) fn clock_now() -> std::time::Instant {
    std::time::Instant::now()
}

/// Relies on `std::time::Instant::elapsed`: the time between `start` and a
/// fresh clock reading. The clock is monotonic, so the duration is
/// non-negative; nothing more can be promised of it.
#[verifier::external_body]
pub(crate) fn clock_elapsed(start: &std::time::Instant) -> std::time::Duration {
    start.elapsed()
}

/// Relies on `std::time::Duration::as_nanos`: the whole duration expressed
/// in nanoseconds.
#[verifier::external_body]
pub(crate) fn duration_as_nanos(d: &std::time::Duration) -> u128 {
    d.as_nanos()
}

/// Relies on `core::fmt`'s `Debug` for `anyhow::Error`: renders the error
/// and its chain of causes as text for the failure event. Nothing is
/// promised of the text; the rendering is the error's own.
#[verifier::external_body]
pub(crate) fn error_debug(e: &anyhow::Error) -> String {
    format!("{:?}", e)
}

/// Relies on `String::push`: appends one character at the end.
#[verifier::external_body]
pub(crate) fn push_char(s: &mut String, c: char)
    ensures
        final(s)@ == old(s)@.push(c),
{
    s.push(c);
}

} // verus!
