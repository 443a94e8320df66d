//! The payload builder, its validation, the double-encoded envelopes, and
//! the exact wire JSON.

use snowplow_tracker::{
    ContextData, Error, EventId, EventType, Payload, SelfDescribingEventData, SelfDescribingJson,
    StructuredEvent, Subject, Timestamp,
};

fn complete_builder() -> snowplow_tracker::PayloadBuilder {
    Payload::builder()
        .p("pc".to_string())
        .tv("x".to_string())
        .eid(EventId::from_value(0xa1a2a3a4b1b2c1c2d1d2d3d4d5d6d7d8))
        .dtm(Timestamp::from_millis(1700000000000))
        .stm(Timestamp::from_millis(1700000000000))
        .aid("app1".to_string())
}

#[test]
fn build_fails_naming_all_missing_fields() {
    match Payload::builder().build() {
        Err(Error::MissingFields(names)) => {
            assert_eq!(names, vec!["p", "tv", "eid", "dtm", "stm", "aid"]);
        }
        other => panic!("expected missing fields, got {:?}", other),
    }
}

#[test]
fn build_fails_naming_each_missing_field() {
    match Payload::builder().p("pc".to_string()).tv("x".to_string()).build() {
        Err(Error::MissingFields(names)) => {
            assert_eq!(names, vec!["eid", "dtm", "stm", "aid"]);
        }
        other => panic!("expected missing fields, got {:?}", other),
    }
}

#[test]
fn build_succeeds_with_every_required_field() {
    let payload = complete_builder().build().unwrap();
    assert_eq!(payload.p, "pc");
    assert_eq!(payload.tv, "x");
    assert_eq!(payload.aid, "app1");
    assert!(payload.ttm.is_none());
    assert!(payload.e.is_none());
    assert!(payload.ue_pr.is_none());
    assert!(payload.co.is_none());
}

#[test]
fn end_to_end_exact_wire_json() {
    let payload = complete_builder().build().unwrap();
    assert_eq!(
        payload.to_json(),
        "{\"p\":\"pc\",\"tv\":\"x\",\"eid\":\"a1a2a3a4-b1b2-c1c2-d1d2-d3d4d5d6d7d8\",\
         \"dtm\":\"1700000000000\",\"stm\":\"1700000000000\",\"aid\":\"app1\"}"
    );
}

#[test]
fn event_id_hyphenated_text() {
    let id = EventId::from_value(0xa1a2a3a4b1b2c1c2d1d2d3d4d5d6d7d8);
    assert_eq!(id.hyphenated(), "a1a2a3a4-b1b2-c1c2-d1d2-d3d4d5d6d7d8");
    let small = EventId::from_value(1);
    assert_eq!(small.hyphenated(), "00000000-0000-0000-0000-000000000001");
}

#[test]
fn context_envelope_parses_back() {
    let entry = SelfDescribingJson::new("s1", serde_json::Value::Object(serde_json::Map::new()));
    let envelope = ContextData::new(vec![entry]).envelope_json();
    let parsed: serde_json::Value = serde_json::from_str(&envelope).unwrap();
    let expected: serde_json::Value = serde_json::from_str(
        "{\"schema\":\"iglu:com.snowplowanalytics.snowplow/contexts/jsonschema/1-0-1\",\
         \"data\":[{\"schema\":\"s1\",\"data\":{}}]}",
    )
    .unwrap();
    assert_eq!(parsed, expected);
}

#[test]
fn context_field_is_double_encoded() {
    let entry = SelfDescribingJson::new("s1", serde_json::Value::Object(serde_json::Map::new()));
    let payload = complete_builder().co(ContextData::new(vec![entry])).build().unwrap();
    let wire: serde_json::Value = serde_json::from_str(&payload.to_json()).unwrap();
    let co_text = wire.get("co").unwrap().as_str().unwrap();
    let inner: serde_json::Value = serde_json::from_str(co_text).unwrap();
    assert_eq!(
        inner.get("schema").unwrap().as_str().unwrap(),
        "iglu:com.snowplowanalytics.snowplow/contexts/jsonschema/1-0-1"
    );
    assert_eq!(inner.get("data").unwrap().as_array().unwrap().len(), 1);
}

#[test]
fn self_describing_envelope_is_double_encoded() {
    let mut data = serde_json::Map::new();
    data.insert("target".to_string(), serde_json::Value::String("basket".to_string()));
    let event_json =
        SelfDescribingJson::new("iglu:com.acme/click/jsonschema/1-0-0", serde_json::Value::Object(data));
    let payload = complete_builder()
        .e(EventType::SelfDescribingEvent)
        .ue_pr(SelfDescribingEventData::new(event_json))
        .build()
        .unwrap();
    let wire: serde_json::Value = serde_json::from_str(&payload.to_json()).unwrap();
    assert_eq!(wire.get("e").unwrap().as_str().unwrap(), "ue");
    let ue_text = wire.get("ue_pr").unwrap().as_str().unwrap();
    let inner: serde_json::Value = serde_json::from_str(ue_text).unwrap();
    assert_eq!(
        inner.get("schema").unwrap().as_str().unwrap(),
        "iglu:com.snowplowanalytics.snowplow/unstruct_event/jsonschema/1-0-0"
    );
    let nested = inner.get("data").unwrap();
    assert_eq!(
        nested.get("schema").unwrap().as_str().unwrap(),
        "iglu:com.acme/click/jsonschema/1-0-0"
    );
    assert_eq!(
        nested.get("data").unwrap().get("target").unwrap().as_str().unwrap(),
        "basket"
    );
}

#[test]
fn optional_fields_are_omitted_not_null() {
    let payload = complete_builder().build().unwrap();
    let wire: serde_json::Value = serde_json::from_str(&payload.to_json()).unwrap();
    let object = wire.as_object().unwrap();
    assert_eq!(object.len(), 6);
    for key in ["ttm", "e", "ue_pr", "co"] {
        assert!(!object.contains_key(key));
    }
}

#[test]
fn structured_and_subject_fields_are_flattened() {
    let mut event = StructuredEvent::new("shop", "add-to-basket");
    event.label = Some("basket".to_string());
    event.value = Some("9.99".to_string());
    let subject = Subject::builder().user_id("user_1").build().unwrap();
    let payload = complete_builder()
        .e(EventType::StructuredEvent)
        .structured_event(event)
        .subject(subject)
        .build()
        .unwrap();
    let wire: serde_json::Value = serde_json::from_str(&payload.to_json()).unwrap();
    assert_eq!(wire.get("e").unwrap().as_str().unwrap(), "se");
    assert_eq!(wire.get("se_ca").unwrap().as_str().unwrap(), "shop");
    assert_eq!(wire.get("se_ac").unwrap().as_str().unwrap(), "add-to-basket");
    assert_eq!(wire.get("se_la").unwrap().as_str().unwrap(), "basket");
    assert_eq!(wire.get("se_va").unwrap().as_str().unwrap(), "9.99");
    assert!(wire.get("se_pr").is_none());
    assert_eq!(wire.get("uid").unwrap().as_str().unwrap(), "user_1");
}

#[test]
fn ttm_is_encoded_when_set() {
    let payload = complete_builder().ttm(Timestamp::from_millis(1699999999999)).build().unwrap();
    let wire: serde_json::Value = serde_json::from_str(&payload.to_json()).unwrap();
    assert_eq!(wire.get("ttm").unwrap().as_str().unwrap(), "1699999999999");
}

#[test]
fn json_strings_are_escaped() {
    let payload = complete_builder().build().unwrap();
    let mut quoted = payload;
    quoted.aid = "a\"b\\c\nd".to_string();
    let wire: serde_json::Value = serde_json::from_str(&quoted.to_json()).unwrap();
    assert_eq!(wire.get("aid").unwrap().as_str().unwrap(), "a\"b\\c\nd");
}

#[test]
fn finalise_payload_stamps_sent_time() {
    let built = complete_builder().finalise_payload().unwrap();
    assert!(built.stm.millis >= 1700000000000);
    assert_eq!(built.dtm, Timestamp::from_millis(1700000000000));
}
