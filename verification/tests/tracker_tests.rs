//! The tracker: construction, subject replacement and update, and the
//! track orchestration.

use snowplow_tracker::{Emitter, EventId, SelfDescribingJson, StructuredEvent, Subject, Tracker};

#[test]
fn create_new_tracker() {
    let tracker = Tracker::new(
        "test namespace",
        "test app id",
        Emitter::new("http://example.com/"),
        Some(Subject {
            user_id: Some("user_1".to_string()),
            ..Subject::default()
        }),
    );

    assert_eq!(tracker.namespace(), "test namespace");
    assert_eq!(tracker.app_id(), "test app id");
    assert_eq!(tracker.emitter().collector_url, "http://example.com/");
    assert_eq!(tracker.subject().user_id.clone().unwrap(), "user_1".to_string());
    assert_eq!(tracker.config.platform, "pc".to_string());
    assert_eq!(tracker.config.version, "rust-0.1.0".to_string());
    assert_eq!(tracker.config.encode_base_64, false);
}

#[test]
fn replace_tracker_subject() {
    let mut tracker = Tracker::new(
        "test namespace",
        "test app id",
        Emitter::new("http://example.com/"),
        Some(Subject::builder().user_id("user_1").build().unwrap()),
    );
    assert_eq!(tracker.subject().user_id, Some("user_1".to_string()));

    *tracker.subject_mut() = Subject::builder().user_id("user_2").build().unwrap();

    assert_eq!(tracker.subject().user_id, Some("user_2".to_string()));
}

#[test]
fn update_tracker_subject() {
    let mut tracker = Tracker::new(
        "test namespace",
        "test app id",
        Emitter::new("http://example.com/"),
        Some(
            Subject::builder()
                .user_id("user_1")
                .ip_address("999.999.999.999")
                .build()
                .unwrap(),
        ),
    );
    assert_eq!(tracker.subject().user_id, Some("user_1".to_string()));
    assert_eq!(
        tracker.subject().ip_address,
        Some("999.999.999.999".to_string())
    );

    let updated_subject = Subject::builder().user_id("user_2").build().unwrap();

    *tracker.subject_mut() = updated_subject.merge(tracker.subject().clone());

    assert_eq!(tracker.subject().user_id, Some("user_2".to_string()));
    assert_eq!(
        tracker.subject().ip_address,
        Some("999.999.999.999".to_string())
    );
}

#[test]
fn track_yields_distinct_event_ids() {
    let mut tracker = Tracker::new("ns", "app", Emitter::new("http://example.com/"), None);
    let first: EventId = tracker
        .track(StructuredEvent::new("shop", "add-to-basket"), None)
        .unwrap();
    let second: EventId = tracker
        .track(StructuredEvent::new("shop", "add-to-basket"), None)
        .unwrap();
    assert_ne!(first, second);
}

#[test]
fn track_queues_one_payload_per_call() {
    let mut tracker = Tracker::new("ns", "app", Emitter::new("http://example.com/"), None);
    let eid = tracker
        .track(StructuredEvent::new("shop", "add-to-basket"), None)
        .unwrap();
    assert_eq!(tracker.emitter().queue.len(), 1);
    let payload = &tracker.emitter().queue[0];
    assert_eq!(payload.eid, eid);
    assert_eq!(payload.p, "pc");
    assert_eq!(payload.tv, "rust-0.1.0");
    assert_eq!(payload.aid, "app");
    assert_eq!(payload.dtm, payload.stm);
    assert!(payload.dtm.millis >= 0);
    assert!(payload.co.is_none());
    assert!(payload.subject.is_none());
}

#[test]
fn track_merges_event_subject_over_tracker_subject() {
    let tracker_subject = Subject::builder()
        .user_id("user_1")
        .language("en-gb")
        .build()
        .unwrap();
    let mut tracker = Tracker::new(
        "ns",
        "app",
        Emitter::new("http://example.com/"),
        Some(tracker_subject),
    );
    let mut event = StructuredEvent::new("shop", "add-to-basket");
    event.subject = Some(Subject::builder().user_id("user_2").build().unwrap());
    tracker.track(event, None).unwrap();

    let payload = &tracker.emitter().queue[0];
    let merged = payload.subject.as_ref().unwrap();
    assert_eq!(merged.user_id, Some("user_2".to_string()));
    assert_eq!(merged.language, Some("en-gb".to_string()));
}

#[test]
fn track_without_event_subject_attaches_none() {
    let tracker_subject = Subject::builder().user_id("user_1").build().unwrap();
    let mut tracker = Tracker::new(
        "ns",
        "app",
        Emitter::new("http://example.com/"),
        Some(tracker_subject),
    );
    tracker
        .track(StructuredEvent::new("shop", "add-to-basket"), None)
        .unwrap();
    assert!(tracker.emitter().queue[0].subject.is_none());
}

#[test]
fn track_attaches_supplied_context() {
    let mut tracker = Tracker::new("ns", "app", Emitter::new("http://example.com/"), None);
    let entry = SelfDescribingJson::new(
        "iglu:com.acme/page/jsonschema/1-0-0",
        serde_json::Value::Object(serde_json::Map::new()),
    );
    tracker
        .track(StructuredEvent::new("shop", "add-to-basket"), Some(vec![entry]))
        .unwrap();
    let payload = &tracker.emitter().queue[0];
    let co = payload.co.as_ref().unwrap();
    assert_eq!(
        co.schema,
        "iglu:com.snowplowanalytics.snowplow/contexts/jsonschema/1-0-1"
    );
    assert_eq!(co.data.len(), 1);
    assert_eq!(co.data[0].schema, "iglu:com.acme/page/jsonschema/1-0-0");
}

#[test]
fn take_pending_drains_in_order() {
    let mut tracker = Tracker::new("ns", "app", Emitter::new("http://example.com/"), None);
    let first = tracker.track(StructuredEvent::new("a", "b"), None).unwrap();
    let second = tracker.track(StructuredEvent::new("c", "d"), None).unwrap();
    let taken = tracker.emitter.take_pending();
    assert_eq!(taken.len(), 2);
    assert_eq!(taken[0].eid, first);
    assert_eq!(taken[1].eid, second);
    assert_eq!(tracker.emitter().queue.len(), 0);
}
