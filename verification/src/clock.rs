//! Wall-clock and stopwatch readings.
//!
//! The standard library's clock is declared here without any promise about
//! the values it hands out: every reading is an arbitrary number to the rest
//! of the crate.

use std::time::{Duration, Instant, SystemTime, SystemTimeError};
use vstd::prelude::*;

verus! {

/// `std::time::SystemTime`, carried as an opaque value.
#[verifier::external_type_specification]
#[verifier::external_body]
pub struct ExSystemTime(SystemTime);

/// `std::time::SystemTimeError`, carried as an opaque value.
#[verifier::external_type_specification]
#[verifier::external_body]
pub struct ExSystemTimeError(SystemTimeError);

/// `std::time::Instant`, carried as an opaque value.
#[verifier::external_type_specification]
#[verifier::external_body]
pub struct ExInstant(Instant);

/// `SystemTime::now`: reads the wall clock. Nothing is claimed of the reading.
pub assume_specification[ SystemTime::now ]() -> (t: SystemTime)
;

/// `SystemTime::duration_since`: the time elapsed since `earlier`, or an error
/// when `earlier` is later than `t`. Nothing is claimed of which one comes back.
pub assume_specification[ SystemTime::duration_since ](t: &SystemTime, earlier: SystemTime) -> (r:
    Result<Duration, SystemTimeError>)
;

/// `Duration::as_secs`: the whole seconds of a duration. Nothing is claimed of
/// the number.
pub assume_specification[ Duration::as_secs ](d: &Duration) -> (s: u64)
;

/// `Duration::as_millis`: the whole milliseconds of a duration. Nothing is
/// claimed of the number.
pub assume_specification[ Duration::as_millis ](d: &Duration) -> (ms: u128)
;

/// `Duration::as_nanos`: the whole nanoseconds of a duration. Nothing is
/// claimed of the number.
pub assume_specification[ Duration::as_nanos ](d: &Duration) -> (ns: u128)
;

/// `Instant::now`: reads the monotonic clock. Nothing is claimed of the reading.
pub assume_specification[ Instant::now ]() -> (i: Instant)
;

/// `Instant::elapsed`: the time since the instant was taken. Nothing is
/// claimed of the duration.
pub assume_specification[ Instant::elapsed ](i: &Instant) -> (d: Duration)
;

/// The constant `std::time::UNIX_EPOCH`.
#[verifier::external_body]
fn unix_epoch() -> (t: SystemTime) {
    std::time::UNIX_EPOCH
}

/// Seconds since the Unix epoch, or 0 when the clock stands before it.
pub fn unix_seconds() -> (now: u64) {
    let reading = SystemTime::now();
    match reading.duration_since(unix_epoch()) {
        Ok(d) => d.as_secs(),
        Err(_) => 0,
    }
}

/// Nanoseconds since the Unix epoch, or 0 when the clock stands before it.
pub fn unix_nanos() -> (now: u128) {
    let reading = SystemTime::now();
    match reading.duration_since(unix_epoch()) {
        Ok(d) => d.as_nanos(),
        Err(_) => 0,
    }
}

/// A running stopwatch.
pub struct Stopwatch {
    started: Instant,
}

impl Stopwatch {
    /// Starts a stopwatch.
    pub fn start() -> (w: Self) {
        Stopwatch { started: Instant::now() }
    }

    /// Milliseconds since the stopwatch was started, reduced to 64 bits.
    pub fn elapsed_millis(&self) -> (ms: u64) {
        let ms: u128 = self.started.elapsed().as_millis();
        #[verifier::truncate]
        (ms as u64)
    }
}

} // verus!
