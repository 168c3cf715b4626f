//! Reading the system clock.

use std::time::{Duration, SystemTime};

use vstd::prelude::*;

verus! {

#[verifier::external_type_specification]
#[verifier::external_body]
pub struct ExSystemTime(SystemTime);

/// `SystemTime::now`: the system clock's current reading.  Nothing is
/// promised of it.
#[verifier::external_body]
fn system_now() -> (t: SystemTime) {
    SystemTime::now()
}

/// `SystemTime::duration_since` with `UNIX_EPOCH`: how long after the epoch
/// `t` lies, or `None` when `t` lies before it.  Nothing is promised of it.
#[verifier::external_body]
fn since_epoch(t: &SystemTime) -> (d: Option<Duration>) {
    match t.duration_since(std::time::UNIX_EPOCH) {
        Ok(d) => Some(d),
        Err(_) => None,
    }
}

/// `Duration::as_secs`: the whole seconds of `d`.  Nothing is promised of
/// it.
#[verifier::external_body]
fn whole_secs(d: &Duration) -> (secs: u64) {
    d.as_secs()
}

/// Whole seconds since the Unix epoch by the system clock, or `None` when
/// the clock reads an instant before the epoch.
pub fn unix_seconds() -> (secs: Option<u64>) {
    let now = system_now();
    match since_epoch(&now) {
        Some(d) => Some(whole_secs(&d)),
        None => None,
    }
}

/// Whole seconds since the Unix epoch by the system clock; a clock that
/// reads an instant before the epoch gives 0, the epoch itself.
pub fn current_timestamp() -> (secs: u64) {
    match unix_seconds() {
        Some(s) => s,
        None => 0,
    }
}

} // verus!
