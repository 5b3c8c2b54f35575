use std::collections::HashMap;

use reddit_offchain::json::{rebuild_members, reencode_json_value, remove_duplicate_keys};
use reddit_offchain::relay::{
    after_kafka_publish, kafka_message_for, kafka_message_from_value, queued_text, record_text, relay_socket_text, route_for_message_key,
    seen_mark, DeliveryAck, RelayAction, RelayError,
};
use reddit_offchain::rollup::TransactionWSEvent;

fn event(key: &str, extra: &str) -> TransactionWSEvent {
    let additional_properties: HashMap<String, serde_json::Value> = serde_json::from_str(extra).unwrap();
    TransactionWSEvent {
        tx_hash: "0xhash".to_string(),
        event_type: "event".to_string(),
        number: 7,
        key: key.to_string(),
        additional_properties,
    }
}

#[test]
fn duplicate_keys_keep_the_last_value() {
    assert_eq!(remove_duplicate_keys(r#"{"a":1,"a":2}"#).unwrap(), r#"{"a":2}"#);
    assert_eq!(remove_duplicate_keys(r#" [1, 2] "#).unwrap(), "[1,2]");
    assert!(remove_duplicate_keys("{not json").is_err());
}

#[test]
fn routes_of_the_transaction_kinds() {
    let r = route_for_message_key("Reddit/UserCreatedEvent").unwrap();
    assert_eq!((r.topic, r.publish_key, r.event_member), ("user", "user_created_key", "user_created_event"));
    let r = route_for_message_key("Reddit/SubRedditCreatedEvent").unwrap();
    assert_eq!(
        (r.topic, r.publish_key, r.event_member),
        ("subreddit", "subreddit_created_key", "sub_reddit_created_event")
    );
    let r = route_for_message_key("Reddit/PostCreatedEvent").unwrap();
    assert_eq!((r.topic, r.publish_key, r.event_member), ("post", "post_created_key", "post_created_event"));
    assert!(route_for_message_key("Reddit/Other").is_none());
}

#[test]
fn kafka_message_carries_the_created_record() {
    let e = event("Reddit/PostCreatedEvent", r#"{"value":{"post_created_event":{"title":"hi"}}}"#);
    let m = kafka_message_for("Reddit/PostCreatedEvent", &e).ok().unwrap();
    assert_eq!(m.payload, r#"{"title":"hi"}"#);
    assert_eq!(m.topic, "post");
    assert_eq!(m.key, "post_created_key");
    assert_eq!(kafka_message_for("Reddit/Unknown", &e).err(), Some(RelayError::UnknownKind));
    assert_eq!(kafka_message_for("Reddit/UserCreatedEvent", &e).err(), Some(RelayError::MissingRecord));
}

#[test]
fn delivery_is_acknowledged_only_after_publication() {
    assert_eq!(after_kafka_publish(true), DeliveryAck::Acknowledge);
    assert_eq!(after_kafka_publish(false), DeliveryAck::LeaveUnacknowledged);
}

#[test]
fn socket_text_is_queued_once() {
    let e = event("Reddit/UserCreatedEvent", "{}");
    let mark = seen_mark(&e);
    assert_eq!((mark.key.as_str(), mark.value, mark.ttl_secs), ("0xhash", "exist", 600));
    match relay_socket_text("he said \"hi\"", &e, true) {
        RelayAction::Publish(m) => {
            assert_eq!(m.queue, "sovereign_reddit_rollup_events");
            assert_eq!(m.payload, br#""he said \"hi\"""#.to_vec());
            assert_eq!(m.kind, "Reddit/UserCreatedEvent");
            assert_eq!(queued_text(&m.payload), Some("he said \"hi\"".to_string()));
        },
        RelayAction::SkipDuplicate => panic!("expected a publication"),
    }
    assert!(matches!(relay_socket_text("x", &e, false), RelayAction::SkipDuplicate));
    assert_eq!(queued_text(b"not json"), None);
}

#[test]
fn rebuilt_members_are_the_same_members() {
    let v: serde_json::Value = serde_json::from_str(r#"{"b":[1,2],"a":{"c":null}}"#).unwrap();
    let map = v.as_object().unwrap().clone();
    let rebuilt = rebuild_members(map.clone());
    assert_eq!(rebuilt, map);
    assert_eq!(rebuild_members(serde_json::Map::new()).len(), 0);
}

#[test]
fn reencoding_writes_each_member_once() {
    let v: serde_json::Value = serde_json::from_str(r#"{ "z" : 1 , "y" : "two" }"#).unwrap();
    assert_eq!(reencode_json_value(v), r#"{"y":"two","z":1}"#);
    assert_eq!(reencode_json_value(serde_json::Value::Bool(true)), "true");
}

#[test]
fn record_text_is_the_written_member() {
    let v: serde_json::Value = serde_json::from_str(r#"{"user_created_event":{"name":"ann"}}"#).unwrap();
    assert_eq!(record_text(&v, "user_created_event"), Some(r#"{"name":"ann"}"#.to_string()));
    assert_eq!(record_text(&v, "post_created_event"), None);
    assert_eq!(record_text(&serde_json::Value::Null, "user_created_event"), None);
}

#[test]
fn message_from_a_transaction_value() {
    let v: serde_json::Value = serde_json::from_str(r#"{"sub_reddit_created_event":{"subname":"rust"}}"#).unwrap();
    let m = kafka_message_from_value("Reddit/SubRedditCreatedEvent", Some(&v)).ok().unwrap();
    assert_eq!((m.topic.as_str(), m.key.as_str()), ("subreddit", "subreddit_created_key"));
    assert_eq!(m.payload, r#"{"subname":"rust"}"#);
    assert_eq!(kafka_message_from_value("Reddit/SubRedditCreatedEvent", None).err(), Some(RelayError::MissingRecord));
    assert_eq!(kafka_message_from_value("Reddit/PostCreatedEvent", Some(&v)).err(), Some(RelayError::MissingRecord));
    assert_eq!(kafka_message_from_value("nope", Some(&v)).err(), Some(RelayError::UnknownKind));
}

#[test]
fn kafka_message_reads_only_the_value_property() {
    let e = event(
        "Reddit/UserCreatedEvent",
        r#"{"module":{"user_created_event":{"name":"bob"}},"value":{"user_created_event":{"name":"ann"}}}"#,
    );
    let m = kafka_message_for("Reddit/UserCreatedEvent", &e).ok().unwrap();
    assert_eq!(m.payload, r#"{"name":"ann"}"#);
    let e = event("Reddit/UserCreatedEvent", r#"{"module":{"user_created_event":{"name":"bob"}}}"#);
    assert_eq!(kafka_message_for("Reddit/UserCreatedEvent", &e).err(), Some(RelayError::MissingRecord));
}
