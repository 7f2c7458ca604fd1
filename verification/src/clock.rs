use std::time::{Duration, SystemTime, UNIX_EPOCH};
use vstd::prelude::*;

verus! {

#[verifier::external_type_specification]
#[verifier::external_body]
pub struct ExSystemTime(SystemTime);

/// Reads the system clock with `SystemTime::now`; nothing is claimed of the
/// time it returns.
#[verifier::external_body]
fn system_now() -> SystemTime {
    SystemTime::now()
}

/// Time elapsed from the Unix epoch to `t`, by `SystemTime::duration_since`;
/// `None` when `t` lies before the epoch. The result depends on the clock's
/// reading, and nothing is claimed of it.
#[verifier::external_body]
fn since_unix_epoch(t: SystemTime) -> Option<Duration> {
    t.duration_since(UNIX_EPOCH).ok()
}

/// Whole milliseconds of `d`, by `Duration::as_millis`. `Duration` is opaque
/// here, so nothing is claimed of the number.
#[verifier::external_body]
fn whole_millis(d: Duration) -> u128 {
    d.as_millis()
}

/// Milliseconds since the Unix epoch, truncated to 64 bits; 0 when the clock
/// reads a time before the epoch. Used to rate-limit re-probing of the local
/// daemon.
pub fn now_millis() -> u64 {
    match since_unix_epoch(system_now()) {
        Some(d) => whole_millis(d) as u64,
        None => 0,
    }
}

} // verus!
