//! The system clock.
use std::time::{Duration, SystemTime, SystemTimeError, UNIX_EPOCH};
use vstd::prelude::*;

verus! {

/// An instant of the system clock, `std::time::SystemTime`.
#[verifier::external_type_specification]
#[verifier::external_body]
pub struct ExSystemTime(SystemTime);

/// The error of `SystemTime::duration_since` when the earlier instant is in
/// fact later, `std::time::SystemTimeError`.
#[verifier::external_type_specification]
#[verifier::external_body]
pub struct ExSystemTimeError(SystemTimeError);

/// `SystemTime::now()`. Nothing is stated of the instant: it depends on the
/// machine's clock.
#[verifier::external_body]
fn system_now() -> (t: SystemTime) {
    SystemTime::now()
}

/// `t.duration_since(UNIX_EPOCH)`: the time elapsed since the Unix epoch, or
/// an error when `t` lies before it. Nothing is stated: the instant is opaque.
#[verifier::external_body]
fn since_unix_epoch(t: &SystemTime) -> (r: Result<Duration, SystemTimeError>) {
    t.duration_since(UNIX_EPOCH)
}

/// `d.as_secs()`: the whole seconds of a duration. Nothing is stated: the
/// duration is opaque.
#[verifier::external_body]
fn whole_seconds(d: &Duration) -> (s: u64) {
    d.as_secs()
}

/// The system clock as whole seconds since the Unix epoch, or `None` when
/// the clock reads a time before the epoch.
pub(crate) fn unix_time_secs() -> (now: Option<u64>) {
    let t = system_now();
    match since_unix_epoch(&t) {
        Ok(d) => Some(whole_seconds(&d)),
        Err(_) => None,
    }
}

} // verus!
