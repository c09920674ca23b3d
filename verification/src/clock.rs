//! Trusted access to the process clocks.
//!
//! Every value read here depends on the machine's clocks, so nothing is
//! promised of any reading: callers state what holds whatever came back.

use vstd::prelude::*;

verus! {

/// `std::time::Instant` is opaque to the verifier: a reading of the
/// monotonic clock, taken to mark when the last flush happened or when a
/// component started.
#[verifier::external_type_specification]
#[verifier::external_body]
pub struct ExInstant(std::time::Instant);

/// Relies on `std::time::Instant::now`: a fresh reading of the monotonic
/// clock. The value is opaque and nothing is promised of it.
pub assume_specification[ std::time::Instant::now ]() -> std::time::Instant;

/// Relies on `std::time::Instant::elapsed`: the time since the reading was
/// taken. The value depends on the clock, so nothing is promised of it.
pub assume_specification[ std::time::Instant::elapsed ](
    i: &std::time::Instant,
) -> core::time::Duration;

/// Relies on `core::time::Duration::as_millis`: the duration in whole
/// milliseconds.
pub assume_specification[ core::time::Duration::as_millis ](d: &core::time::Duration) -> u128;

/// Relies on `core::time::Duration::as_secs`: the duration in whole seconds.
pub assume_specification[ core::time::Duration::as_secs ](d: &core::time::Duration) -> u64;

/// Relies on `std::time::SystemTime::now` and
/// `SystemTime::duration_since(UNIX_EPOCH)`: whole seconds of wall-clock time
/// since the Unix epoch, zero if the clock reads before the epoch. The value
/// depends on the machine's clock, so nothing is promised of it.
#[verifier::external_body]
pub fn wall_clock_secs() -> u64 {
    std::time::SystemTime::now()
        .duration_since(std::time::UNIX_EPOCH)
        .map(|d| d.as_secs())
        .unwrap_or(0)
}

} // verus!
