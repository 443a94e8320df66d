//! Subject construction and merge precedence.

use snowplow_tracker::Subject;

#[test]
fn merge_prefers_primary_then_fallback() {
    let primary = Subject::builder()
        .user_id("user_1")
        .ip_address("10.0.0.1")
        .build()
        .unwrap();
    let fallback = Subject::builder()
        .user_id("user_2")
        .language("en-gb")
        .timezone("Europe/London")
        .build()
        .unwrap();
    let merged = primary.merge(fallback);
    assert_eq!(merged.user_id, Some("user_1".to_string()));
    assert_eq!(merged.ip_address, Some("10.0.0.1".to_string()));
    assert_eq!(merged.language, Some("en-gb".to_string()));
    assert_eq!(merged.timezone, Some("Europe/London".to_string()));
    assert_eq!(merged.useragent, None);
}

#[test]
fn merge_is_not_commutative_in_general() {
    let a = Subject::builder().user_id("user_1").build().unwrap();
    let b = Subject::builder().user_id("user_2").build().unwrap();
    let ab = a.clone().merge(b.clone());
    let ba = b.merge(a);
    assert_eq!(ab.user_id, Some("user_1".to_string()));
    assert_eq!(ba.user_id, Some("user_2".to_string()));
    assert_ne!(ab.user_id, ba.user_id);
}

#[test]
fn merge_of_disjoint_subjects_combines_both_ways() {
    let a = Subject::builder().user_id("user_1").build().unwrap();
    let b = Subject::builder().language("en-gb").build().unwrap();
    let ab = a.clone().merge(b.clone());
    let ba = b.merge(a);
    assert_eq!(ab.user_id, ba.user_id);
    assert_eq!(ab.language, ba.language);
}

#[test]
fn builder_sets_each_attribute() {
    let subject = Subject::builder()
        .user_id("u")
        .ip_address("127.0.0.1")
        .timezone("UTC")
        .language("fr")
        .useragent("agent")
        .domain_user_id("duid")
        .network_user_id("nuid")
        .build()
        .unwrap();
    assert_eq!(subject.user_id, Some("u".to_string()));
    assert_eq!(subject.ip_address, Some("127.0.0.1".to_string()));
    assert_eq!(subject.timezone, Some("UTC".to_string()));
    assert_eq!(subject.language, Some("fr".to_string()));
    assert_eq!(subject.useragent, Some("agent".to_string()));
    assert_eq!(subject.domain_user_id, Some("duid".to_string()));
    assert_eq!(subject.network_user_id, Some("nuid".to_string()));
}
