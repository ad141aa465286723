//! The wall clock, read through std's system time.

use vstd::prelude::*;

verus! {

/// Milliseconds since the Unix epoch by the system clock (std's
/// `SystemTime::now` and `duration_since(UNIX_EPOCH)`), 0 for a clock set
/// before the epoch and the largest `i64` past its range. Of the value only
/// that is claimed: it is not negative; it depends on the machine's clock.
#[verifier::external_body]
pub fn now_millis() -> (r: i64)
    ensures
        r >= 0,
{
    match std::time::SystemTime::now().duration_since(std::time::UNIX_EPOCH) {
        Ok(d) => i64::try_from(d.as_millis()).unwrap_or(i64::MAX),
        Err(_) => 0,
    }
}

/// Whole seconds since the Unix epoch by the system clock (std's
/// `SystemTime::now` and `duration_since(UNIX_EPOCH)`), 0 for a clock set
/// before the epoch. Nothing is claimed of the value: it depends on the
/// machine's clock.
#[verifier::external_body]
pub fn now_secs() -> (r: u64) {
    match std::time::SystemTime::now().duration_since(std::time::UNIX_EPOCH) {
        Ok(d) => d.as_secs(),
        Err(_) => 0,
    }
}

} // verus!
