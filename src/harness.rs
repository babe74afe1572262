//! Timing a workload on the monotonic clock.
use vstd::prelude::*;
use std::time::Instant;

verus! {

#[verifier::external_type_specification]
#[verifier::external_body]
pub struct ExInstant(std::time::Instant);

/// Relies on `std::time::Instant::now`: reads the monotonic clock. Nothing is
/// assumed of the instant returned.
pub assume_specification[ std::time::Instant::now ]() -> std::time::Instant;

/// Relies on `std::time::Instant::elapsed`: the time since the instant on the
/// monotonic clock. Nothing is assumed of the duration returned.
pub assume_specification[ std::time::Instant::elapsed ](
    self_: &std::time::Instant,
) -> std::time::Duration;

/// Relies on `std::time::Duration::as_millis`: the whole milliseconds of the
/// duration. Nothing is assumed of the number returned.
pub assume_specification[ std::time::Duration::as_millis ](self_: &std::time::Duration) -> u128;

/// Runs `workload` exactly once and returns its result together with the
/// whole milliseconds that elapsed on the monotonic clock from just before the
/// call to just after it returned.
pub fn measure<R, F: FnOnce() -> R>(workload: F) -> (out: (R, u128))
    requires
        workload.requires(()),
    ensures
        workload.ensures((), out.0),
{
    let start = Instant::now();
    let result = workload();
    let elapsed = start.elapsed();
    let millis = elapsed.as_millis();
    (result, millis)
}

} // verus!
