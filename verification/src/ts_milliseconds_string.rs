//! The mandatory timestamp codec: a point in time and the decimal string of
//! its millisecond offset from the epoch.

use vstd::prelude::*;
use crate::decimal::{fmt_i64, parse_i64};
use crate::error::Error;
use crate::timestamp::{spec_ts_decode, spec_ts_encode, Timestamp};

verus! {

/// Encodes a timestamp as the base-10 string of its millisecond offset.
pub fn serialize(t: &Timestamp) -> (r: String)
    ensures
        r@ == spec_ts_encode(*t),
{
    fmt_i64(t.millis)
}

/// Decodes the base-10 string of a millisecond offset. Text that is not a
/// signed decimal numeral within range fails with an invalid-timestamp
/// condition carrying the offending text.
pub fn deserialize(s: &str) -> (r: Result<Timestamp, Error>)
    ensures
        match r {
            Ok(t) => spec_ts_decode(s@) == Some(t),
            Err(e) => spec_ts_decode(s@) is None && (e matches Error::InvalidTimestamp(w)
                && w@ == s@),
        },
{
    match parse_i64(s) {
        Some(v) => Ok(Timestamp { millis: v }),
        None => Err(Error::InvalidTimestamp(s.to_owned())),
    }
}

} // verus!
