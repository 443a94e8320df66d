//! Reading the system clock as a millisecond timestamp.

use vstd::prelude::*;
use crate::timestamp::Timestamp;

verus! {

/// Declares `std::time::SystemTime`, the outside type a clock reading
/// starts from; opaque here, read only through `millis_since_epoch`.
#[verifier::external_type_specification]
#[verifier::external_body]
pub struct ExSystemTime(std::time::SystemTime);

/// Relies on `std::time::SystemTime::now`: the current system time.
/// The value depends on the machine and the moment: nothing is promised.
#[verifier::external_body]
fn system_now() -> std::time::SystemTime {
    std::time::SystemTime::now()
}

/// Relies on `SystemTime::duration_since`, measured against `UNIX_EPOCH`:
/// the whole milliseconds from the epoch to `t`, or nothing when `t` lies
/// before the epoch. The value depends on the clock: nothing is promised.
#[verifier::external_body]
fn millis_since_epoch(t: &std::time::SystemTime) -> Option<u128> {
    match t.duration_since(std::time::UNIX_EPOCH) {
        Ok(d) => Some(d.as_millis()),
        Err(_) => None,
    }
}

/// Reads the clock once. Yields nothing when the clock cannot be read as a
/// representable millisecond count; a reading is never negative, since the
/// count is measured forward from the epoch.
pub fn now_timestamp() -> (r: Option<Timestamp>)
    ensures
        r matches Some(t) ==> t.millis >= 0,
{
    match millis_since_epoch(&system_now()) {
        Some(m) => {
            if m <= 9223372036854775807u128 {
                Some(Timestamp { millis: m as i64 })
            } else {
                None
            }
        },
        None => None,
    }
}

} // verus!
