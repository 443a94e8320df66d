//! The optional timestamp codec: absence is a representable wire value
//! (an omitted or null field), not a failure.

use vstd::prelude::*;
use crate::error::Error;
use crate::timestamp::{spec_ts_opt_decode, spec_ts_opt_encode, Timestamp};

verus! {

/// Encodes an optional timestamp: a present value becomes its decimal
/// string, an absent one stays absent (omitted from the wire object).
pub fn serialize(o: &Option<Timestamp>) -> (r: Option<String>)
    ensures
        match r {
            Some(s) => spec_ts_opt_encode(*o) == Some(s@),
            None => spec_ts_opt_encode(*o) is None,
        },
{
    match o {
        Some(t) => Some(crate::ts_milliseconds_string::serialize(t)),
        None => None,
    }
}

/// Decodes an optional wire timestamp: absent (or null) input yields no
/// value; present input must be a valid millisecond numeral.
pub fn deserialize(s: Option<&str>) -> (r: Result<Option<Timestamp>, Error>)
    ensures
        match r {
            Ok(o) => spec_ts_opt_decode(match s {
                Some(w) => Some(w@),
                None => None,
            }) == Some(o),
            Err(e) => spec_ts_opt_decode(match s {
                Some(w) => Some(w@),
                None => None,
            }) is None && (e matches Error::InvalidTimestamp(w) && s matches Some(orig)
                && w@ == orig@),
        },
{
    match s {
        Some(w) => match crate::ts_milliseconds_string::deserialize(w) {
            Ok(t) => Ok(Some(t)),
            Err(e) => Err(e),
        },
        None => Ok(None),
    }
}

} // verus!
