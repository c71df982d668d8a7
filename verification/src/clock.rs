//! Monotonic time for the timing statistics.

use vstd::prelude::*;

verus! {

#[verifier::external_type_specification]
#[verifier::external_body]
pub struct ExInstant(std::time::Instant);

/// Calls `std::time::Instant::now`. Nothing is claimed of the instant it
/// returns.
#[verifier::external_body]
pub(crate) fn clock_now() -> std::time::Instant {
    std::time::Instant::now()
}

/// Calls `Instant::elapsed` on `start`. The value depends on the clock;
/// nothing is claimed of it.
#[verifier::external_body]
pub(crate) fn elapsed_since(start: &std::time::Instant) -> std::time::Duration {
    start.elapsed()
}

/// Calls `Duration::as_nanos` on `d`, keeping the low 64 bits. Nothing is
/// claimed of the value.
#[verifier::external_body]
pub(crate) fn duration_nanos(d: &std::time::Duration) -> u64 {
    d.as_nanos() as u64
}

/// Nanoseconds elapsed since `start` (the low 64 bits).
pub(crate) fn nanos_since(start: &std::time::Instant) -> u64 {
    let d = elapsed_since(start);
    duration_nanos(&d)
}

} // verus!
