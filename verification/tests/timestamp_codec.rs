//! The millisecond timestamp codec: wire text, round trips, and rejection
//! of text that names no representable point in time.

use chrono::{DateTime, SubsecRound, Utc};
use std::time::UNIX_EPOCH;

use snowplow_tracker::error::Error;
use snowplow_tracker::timestamp::Timestamp;
use snowplow_tracker::{ts_milliseconds_string, ts_milliseconds_string_option};

#[test]
fn test_serialize_timestamp() {
    let now = Utc::now().trunc_subsecs(0);
    let unix_ms = now
        .signed_duration_since(DateTime::<Utc>::from(UNIX_EPOCH))
        .num_milliseconds();
    let ts = Timestamp::from_millis(unix_ms);
    let unix = unix_ms.to_string();
    assert_eq!(ts_milliseconds_string::serialize(&ts), unix);
    assert_eq!(ts_milliseconds_string::deserialize(&unix).unwrap(), ts);
}

#[test]
fn test_serialize_timestamp_option() {
    let now = Utc::now().trunc_subsecs(0);
    let unix_ms = now
        .signed_duration_since(DateTime::<Utc>::from(UNIX_EPOCH))
        .num_milliseconds();
    let ts = Some(Timestamp::from_millis(unix_ms));
    let unix = unix_ms.to_string();
    assert_eq!(ts_milliseconds_string_option::serialize(&ts), Some(unix.clone()));
    assert_eq!(
        ts_milliseconds_string_option::deserialize(Some(&unix)).unwrap(),
        ts
    );

    let ts: Option<Timestamp> = None;
    assert_eq!(ts_milliseconds_string_option::serialize(&ts), None);
    assert_eq!(ts_milliseconds_string_option::deserialize(None).unwrap(), ts);
}

#[test]
fn round_trip_fixed_values() {
    for millis in [0i64, 1, -1, 1700000000000, -1700000000000, i64::MAX, i64::MIN] {
        let ts = Timestamp::from_millis(millis);
        let text = ts_milliseconds_string::serialize(&ts);
        assert_eq!(ts_milliseconds_string::deserialize(&text).unwrap(), ts);
    }
}

#[test]
fn encode_exact_text() {
    assert_eq!(
        ts_milliseconds_string::serialize(&Timestamp::from_millis(1700000000000)),
        "1700000000000"
    );
    assert_eq!(ts_milliseconds_string::serialize(&Timestamp::from_millis(0)), "0");
    assert_eq!(ts_milliseconds_string::serialize(&Timestamp::from_millis(-42)), "-42");
}

#[test]
fn decode_accepts_signs_and_leading_zeros() {
    assert_eq!(
        ts_milliseconds_string::deserialize("+5").unwrap(),
        Timestamp::from_millis(5)
    );
    assert_eq!(
        ts_milliseconds_string::deserialize("-5").unwrap(),
        Timestamp::from_millis(-5)
    );
    assert_eq!(
        ts_milliseconds_string::deserialize("007").unwrap(),
        Timestamp::from_millis(7)
    );
}

#[test]
fn decode_rejects_bad_text() {
    for bad in ["", "abc", "12a", "-", "+", "1.5", " 1", "99999999999999999999"] {
        match ts_milliseconds_string::deserialize(bad) {
            Err(Error::InvalidTimestamp(text)) => assert_eq!(text, bad),
            other => panic!("expected an invalid-timestamp failure, got {:?}", other),
        }
    }
}
