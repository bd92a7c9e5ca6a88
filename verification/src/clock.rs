//! Trusted access to the process clock, used only to stop building
//! approximate heuristic tables when their wall-clock budget runs out.

use vstd::prelude::*;

verus! {

/// `std::time::Instant` carried as an opaque value.
#[verifier::external_type_specification]
#[verifier::external_body]
pub struct ExInstant(std::time::Instant);

/// Relies on `std::time::Instant::now`: an opaque point in time.  Nothing is
/// promised of the value.
#[verifier::external_body]
pub(crate) fn clock_now() -> std::time::Instant {
    std::time::Instant::now()
}

/// Relies on `std::time::Instant::elapsed`: the whole milliseconds since
/// `start` was taken (saturating, never panicking).  Nothing is promised of
/// the value, so callers must work for every outcome.
#[verifier::external_body]
pub(crate) fn elapsed_ms(start: &std::time::Instant) -> u64 {
    start.elapsed().as_millis() as u64
}

} // verus!
