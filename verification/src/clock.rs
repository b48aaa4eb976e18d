//! Wall-clock and elapsed-time readings; every reading may differ between calls.
use vstd::prelude::*;

verus! {

/// `std::time::Instant`, a point on the monotonic clock.
#[verifier::external_type_specification]
#[verifier::external_body]
pub struct ExInstant(std::time::Instant);

/// `std::time::Instant::now`: the current monotonic time (nothing is promised of it).
#[verifier::external_body]
pub(crate) fn instant_now() -> std::time::Instant {
    std::time::Instant::now()
}

/// `Instant::elapsed` in whole milliseconds, converted to `u64` (nothing is promised
/// of the reading).
#[verifier::external_body]
pub(crate) fn elapsed_millis(start: &std::time::Instant) -> u64 {
    start.elapsed().as_millis() as u64
}

/// `chrono::Utc::now()` as whole seconds since the Unix epoch (`timestamp`) and the
/// nanoseconds past that second (`timestamp_subsec_nanos`) of one reading (nothing
/// is promised of the reading).
#[verifier::external_body]
fn now_parts() -> (i64, u32) {
    let t = chrono::Utc::now();
    (t.timestamp(), t.timestamp_subsec_nanos())
}

/// The current time in nanoseconds since the Unix epoch, at the full precision
/// of the clock reading.
pub(crate) fn now_nanos() -> i128 {
    let (secs, sub) = now_parts();
    secs as i128 * 1_000_000_000i128 + sub as i128
}

/// `chrono::Utc::now().to_rfc3339()`: the current time as an RFC 3339 string
/// (nothing is promised of the reading).
#[verifier::external_body]
pub(crate) fn now_rfc3339() -> String {
    chrono::Utc::now().to_rfc3339()
}

} // verus!
