use vstd::prelude::*;

verus! {

/// `std::time::Instant` carried as an opaque reading of the monotonic clock.
#[verifier::external_type_specification]
#[verifier::external_body]
pub struct ExInstant(std::time::Instant);

/// Relies on std::time::Instant::now: an opaque point on the monotonic
/// clock.  The value depends on when the call runs, so nothing is promised
/// of it.
#[verifier::external_body]
pub(crate) fn monotonic_now() -> std::time::Instant {
    std::time::Instant::now()
}

/// Relies on std::time::Instant::elapsed and Duration::as_millis: the whole
/// milliseconds since `t` was taken.  The value depends on when the call
/// runs, so nothing is promised of it.
#[verifier::external_body]
pub(crate) fn elapsed_millis(t: &std::time::Instant) -> u128 {
    t.elapsed().as_millis()
}

} // verus!
