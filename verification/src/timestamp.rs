//! The point-in-time model and its wire text.
//!
//! On the wire a timestamp is the base-10 text of its millisecond offset from
//! the Unix epoch. `spec_ts_encode` and `spec_ts_decode` say what that text
//! is and what reading it back yields; the executable codec lives in
//! `ts_milliseconds_string` and `ts_milliseconds_string_option`.

use vstd::prelude::*;
use crate::decimal::{spec_i64_dec, spec_parse_i64, lemma_parse_i64_dec};

verus! {

/// A point in time, held as a count of whole milliseconds since the Unix
/// epoch. Sub-millisecond precision is outside the model: every value of
/// this type is already truncated to the millisecond. Negative counts
/// (before the epoch) are ordinary values.
#[derive(Clone, Copy, PartialEq, Eq, Structural, Debug)]
pub struct Timestamp {
    pub millis: i64,
}

impl Timestamp {
    pub fn from_millis(millis: i64) -> (r: Timestamp)
        ensures
            r.millis == millis,
    {
        Timestamp { millis }
    }
}

/// The wire text of a timestamp: the decimal text of its millisecond count.
pub open spec fn spec_ts_encode(t: Timestamp) -> Seq<char> {
    spec_i64_dec(t.millis as int)
}

/// What decoding a wire timestamp yields: the value of a signed decimal
/// numeral when it names a representable point in time, nothing otherwise.
pub open spec fn spec_ts_decode(s: Seq<char>) -> Option<Timestamp> {
    match spec_parse_i64(s) {
        Some(v) => Some(Timestamp { millis: v as i64 }),
        None => None,
    }
}

/// The optional wire form: an absent value has no text at all.
pub open spec fn spec_ts_opt_encode(o: Option<Timestamp>) -> Option<Seq<char>> {
    match o {
        Some(t) => Some(spec_ts_encode(t)),
        None => None,
    }
}

/// Decoding the optional wire form: absent (or null) input is no value, not
/// a failure; present input is decoded as a mandatory timestamp.
pub open spec fn spec_ts_opt_decode(o: Option<Seq<char>>) -> Option<Option<Timestamp>> {
    match o {
        None => Some(None),
        Some(s) => match spec_ts_decode(s) {
            Some(t) => Some(Some(t)),
            None => None,
        },
    }
}

/// Round trip: the wire text of any timestamp decodes back to it.
pub proof fn lemma_ts_round_trip(t: Timestamp)
    ensures
        spec_ts_decode(spec_ts_encode(t)) == Some(t),
{
    lemma_parse_i64_dec(t.millis);
}

/// Round trip of the optional codec; in particular an absent value encodes
/// to nothing and decodes back to "no value", never to a failure.
pub proof fn lemma_ts_opt_round_trip(o: Option<Timestamp>)
    ensures
        spec_ts_opt_decode(spec_ts_opt_encode(o)) == Some(o),
{
    match o {
        Some(t) => lemma_ts_round_trip(t),
        None => {},
    }
}

} // verus!
