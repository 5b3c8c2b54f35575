//! Relaying rollup transactions: the socket listener queues each new
//! transaction once, and the queue consumer publishes the created record
//! on the Kafka topic of its kind.

use vstd::prelude::*;
use std::collections::HashMap;
use serde_json::Value;
use crate::json::{json_member, json_value_to_string, json_written, member_of};
use crate::rollup::{
    KafkaPublishPayload, TransactionWSEvent, KAFKA_POST_PUBLISH_KEY, KAFKA_POST_PUBLISH_TOPIC,
    KAFKA_SUBREDDIT_PUBLISH_KEY, KAFKA_SUBREDDIT_PUBLISH_TOPIC, KAFKA_USER_PUBLISH_KEY,
    KAFKA_USER_PUBLISH_TOPIC, POST_TX_KEY, SOVEREIGN_REDDIT_ROLLUP_EVENTS, SUBREDDIT_TX_KEY,
    USER_TX_KEY,
};
use crate::text::{str_eq, owned};

verus! {

/// The JSON text of a string as `serde_json::to_vec` writes it.
pub uninterp spec fn json_string_encoding(text: Seq<char>) -> Seq<u8>;

/// The string that `serde_json::from_slice::<String>` reads from bytes, if
/// any.
pub uninterp spec fn json_string_decoding(bytes: Seq<u8>) -> Option<Seq<char>>;

/// Calls `serde_json::to_vec` on a string: the string's JSON text, which
/// depends on the string alone. serde_json writes a string by escaping it
/// into a `Vec<u8>`, a writer that never fails, so the call always
/// succeeds; and `serde_json::from_slice::<String>` reads the escaped
/// text back as the same string.
#[verifier::external_body]
fn json_string_bytes(text: &str) -> (r: Option<Vec<u8>>)
    ensures
        r is Some,
        r matches Some(bytes) ==> bytes@ == json_string_encoding(text@),
        r matches Some(bytes) ==> json_string_decoding(bytes@) == Some(text@),
{
    serde_json::to_vec(text).ok()
}

/// Calls `serde_json::from_slice::<String>`: the string that the bytes
/// hold as JSON text, which depends on the bytes alone; `None` where they
/// hold none.
#[verifier::external_body]
fn json_string_from_bytes(bytes: &[u8]) -> (r: Option<String>)
    ensures
        r is Some <==> json_string_decoding(bytes@) is Some,
        r matches Some(s) ==> json_string_decoding(bytes@) == Some(s@),
{
    serde_json::from_slice::<String>(bytes).ok()
}

// ---------------------------------------------------------------------------
// Socket listener: each transaction is queued once

/// How long the mark of a seen transaction stays in the cache.
pub const SEEN_MARK_TTL_SECS: u64 = 600;

/// The value stored as the mark of a seen transaction.
pub const SEEN_MARK_VALUE: &'static str = "exist";

/// The cache entry that marks a transaction as seen; it is set only when
/// no entry with the key exists.
pub struct SeenMark {
    pub key: String,
    pub value: &'static str,
    pub ttl_secs: u64,
}

/// The seen-mark of a transaction: keyed by the transaction hash, kept for
/// ten minutes.
pub fn seen_mark(event: &TransactionWSEvent) -> (m: SeenMark)
    ensures
        m.key@ == event.tx_hash@,
        m.value@ == SEEN_MARK_VALUE@,
        m.ttl_secs == 600,
{
    SeenMark { key: event.tx_hash.clone(), value: SEEN_MARK_VALUE, ttl_secs: SEEN_MARK_TTL_SECS }
}

/// A message for the rollup-event queue.
pub struct QueueMessage {
    pub queue: &'static str,
    pub payload: Vec<u8>,
    pub kind: String,
}

/// What the listener does with a transaction whose mark it tried to set.
pub enum RelayAction {
    /// The mark was new: queue the message.
    Publish(QueueMessage),
    /// The transaction was seen before.
    SkipDuplicate,
}

/// Decides what becomes of a socket text carrying a transaction: queued
/// (as the JSON text of the whole socket text, with the transaction's key
/// as kind) exactly when its seen-mark was newly set. What is queued reads
/// back, through `queued_text`, as the socket text itself.
pub fn relay_socket_text(text: &str, event: &TransactionWSEvent, newly_marked: bool) -> (r: RelayAction)
    ensures
        r is Publish <==> newly_marked,
        r matches RelayAction::Publish(m) ==> {
            &&& m.queue@ == SOVEREIGN_REDDIT_ROLLUP_EVENTS@
            &&& m.payload@ == json_string_encoding(text@)
            &&& json_string_decoding(m.payload@) == Some(text@)
            &&& m.kind@ == event.key@
        },
{
    if newly_marked {
        let payload = json_string_bytes(text).unwrap();
        RelayAction::Publish(
            QueueMessage { queue: SOVEREIGN_REDDIT_ROLLUP_EVENTS, payload, kind: event.key.clone() },
        )
    } else {
        RelayAction::SkipDuplicate
    }
}

// ---------------------------------------------------------------------------
// Queue consumer: each transaction kind goes to its topic

/// Where the created record of a transaction kind is published: the topic,
/// the message key, and the member of the transaction's `value` that holds
/// the record.
pub struct EventRoute {
    pub topic: &'static str,
    pub publish_key: &'static str,
    pub event_member: &'static str,
}

impl EventRoute {
    pub open spec fn parts(self) -> (Seq<char>, Seq<char>, Seq<char>) {
        (self.topic@, self.publish_key@, self.event_member@)
    }
}

/// The route of each known transaction kind.
pub open spec fn route_of(kind: Seq<char>) -> Option<(Seq<char>, Seq<char>, Seq<char>)> {
    if kind == USER_TX_KEY@ {
        Some((KAFKA_USER_PUBLISH_TOPIC@, KAFKA_USER_PUBLISH_KEY@, "user_created_event"@))
    } else if kind == SUBREDDIT_TX_KEY@ {
        Some((KAFKA_SUBREDDIT_PUBLISH_TOPIC@, KAFKA_SUBREDDIT_PUBLISH_KEY@, "sub_reddit_created_event"@))
    } else if kind == POST_TX_KEY@ {
        Some((KAFKA_POST_PUBLISH_TOPIC@, KAFKA_POST_PUBLISH_KEY@, "post_created_event"@))
    } else {
        None
    }
}

pub fn route_for_message_key(kind: &str) -> (r: Option<EventRoute>)
    ensures
        r is Some <==> route_of(kind@) is Some,
        r matches Some(route) ==> Some(route.parts()) == route_of(kind@),
{
    if str_eq(kind, USER_TX_KEY) {
        Some(EventRoute {
            topic: KAFKA_USER_PUBLISH_TOPIC,
            publish_key: KAFKA_USER_PUBLISH_KEY,
            event_member: "user_created_event",
        })
    } else if str_eq(kind, SUBREDDIT_TX_KEY) {
        Some(EventRoute {
            topic: KAFKA_SUBREDDIT_PUBLISH_TOPIC,
            publish_key: KAFKA_SUBREDDIT_PUBLISH_KEY,
            event_member: "sub_reddit_created_event",
        })
    } else if str_eq(kind, POST_TX_KEY) {
        Some(EventRoute {
            topic: KAFKA_POST_PUBLISH_TOPIC,
            publish_key: KAFKA_POST_PUBLISH_KEY,
            event_member: "post_created_event",
        })
    } else {
        None
    }
}

/// Created users go to the `user` topic under `user_created_key`, read from
/// the `user_created_event` member; subreddits to `subreddit` under
/// `subreddit_created_key` from `sub_reddit_created_event`; posts to `post`
/// under `post_created_key` from `post_created_event`. No other kind is
/// routed.
pub proof fn lemma_routes_of_the_created_events()
    ensures
        route_of("Reddit/UserCreatedEvent"@) == Some(
            ("user"@, "user_created_key"@, "user_created_event"@),
        ),
        route_of("Reddit/SubRedditCreatedEvent"@) == Some(
            ("subreddit"@, "subreddit_created_key"@, "sub_reddit_created_event"@),
        ),
        route_of("Reddit/PostCreatedEvent"@) == Some(
            ("post"@, "post_created_key"@, "post_created_event"@),
        ),
        forall|k: Seq<char>| #[trigger] route_of(k) is Some ==> k == "Reddit/UserCreatedEvent"@ || k
            == "Reddit/SubRedditCreatedEvent"@ || k == "Reddit/PostCreatedEvent"@,
{
    reveal_strlit("Reddit/UserCreatedEvent");
    reveal_strlit("Reddit/SubRedditCreatedEvent");
    reveal_strlit("Reddit/PostCreatedEvent");
    assert("Reddit/UserCreatedEvent"@[7] != "Reddit/SubRedditCreatedEvent"@[7]);
    assert("Reddit/UserCreatedEvent"@[7] != "Reddit/PostCreatedEvent"@[7]);
    assert("Reddit/SubRedditCreatedEvent"@[7] != "Reddit/PostCreatedEvent"@[7]);
}

/// Each known transaction kind is published on a topic of its own.
pub proof fn lemma_routes_have_distinct_topics(a: Seq<char>, b: Seq<char>)
    requires
        route_of(a) is Some,
        route_of(b) is Some,
        a != b,
    ensures
        route_of(a).unwrap().0 != route_of(b).unwrap().0,
{
    reveal_strlit("user");
    reveal_strlit("subreddit");
    reveal_strlit("post");
    assert("user"@[0] != "subreddit"@[0]);
    assert("user"@[0] != "post"@[0]);
    assert("subreddit"@[0] != "post"@[0]);
}

/// Reads a queued message's payload: the socket text it carries as a JSON
/// string, or `None` where it holds none.
pub fn queued_text(payload: &[u8]) -> (r: Option<String>)
    ensures
        r is Some <==> json_string_decoding(payload@) is Some,
        r matches Some(s) ==> json_string_decoding(payload@) == Some(s@),
{
    json_string_from_bytes(payload)
}

/// The JSON text of a value's member `member`: `None` when the value is not
/// an object with such a member, or the member cannot be written.
pub open spec fn record_text_of(v: Value, member: Seq<char>) -> Option<Seq<char>> {
    match member_of(v, member) {
        Some(record) => json_written(record),
        None => None,
    }
}

/// The JSON text of the created record that a transaction's `value`
/// carries under `event_member`.
pub fn record_text(value: &Value, event_member: &str) -> (r: Option<String>)
    ensures
        r is None <==> record_text_of(*value, event_member@) is None,
        r matches Some(t) ==> record_text_of(*value, event_member@) == Some(t@),
{
    match json_member(value, event_member) {
        Some(record) => json_value_to_string(&record),
        None => None,
    }
}

/// The Kafka message for a created record on a route.
pub fn kafka_payload_for(route: &EventRoute, record: String) -> (p: KafkaPublishPayload)
    ensures
        p.payload == record,
        p.topic@ == route.topic@,
        p.key@ == route.publish_key@,
{
    KafkaPublishPayload { payload: record, topic: owned(route.topic), key: owned(route.publish_key) }
}

/// Why a queued transaction is not published.
#[derive(PartialEq, Eq, Structural, Clone, Copy, Debug)]
pub enum RelayError {
    /// The message kind names no known transaction.
    UnknownKind,
    /// The transaction does not carry its created record.
    MissingRecord,
}

/// The topic, key and payload of a message, in that order.
pub open spec fn message_parts(p: KafkaPublishPayload) -> (Seq<char>, Seq<char>, Seq<char>) {
    (p.topic@, p.key@, p.payload@)
}

/// What a queued transaction of a kind, carrying `value`, is published as:
/// its created record's text on the kind's topic under the kind's key.
pub open spec fn message_for(kind: Seq<char>, value: Option<&Value>) -> Result<
    (Seq<char>, Seq<char>, Seq<char>),
    RelayError,
> {
    match route_of(kind) {
        None => Err(RelayError::UnknownKind),
        Some(parts) => match value {
            None => Err(RelayError::MissingRecord),
            Some(v) => match record_text_of(*v, parts.2) {
                Some(text) => Ok((parts.0, parts.1, text)),
                None => Err(RelayError::MissingRecord),
            },
        },
    }
}

/// The Kafka message for a queued transaction of the given kind whose
/// `value` property is `value`: refused with `UnknownKind` when the kind is
/// not known, and with `MissingRecord` when the value does not hold the
/// kind's created record.
pub fn kafka_message_from_value(kind: &str, value: Option<&Value>) -> (r: Result<
    KafkaPublishPayload,
    RelayError,
>)
    ensures
        r matches Ok(p) ==> (message_for(kind@, value) matches Ok(parts) && parts == message_parts(p)),
        r matches Err(e) ==> (message_for(kind@, value) matches Err(f) && f == e),
{
    let route = match route_for_message_key(kind) {
        Some(route) => route,
        None => return Err(RelayError::UnknownKind),
    };
    let value = match value {
        Some(v) => v,
        None => return Err(RelayError::MissingRecord),
    };
    match record_text(value, route.event_member) {
        Some(record) => Ok(kafka_payload_for(&route, record)),
        None => Err(RelayError::MissingRecord),
    }
}

/// Calls `HashMap::get` with a `&str` key: the value of the entry whose
/// key reads as `name`, or `None` when no key does. (`String` keys are
/// looked up by their text.)
#[verifier::external_body]
fn property_named<'a>(props: &'a HashMap<String, Value>, name: &str) -> (r: Option<&'a Value>)
    ensures
        r matches Some(v) ==> exists|k: String| #[trigger] props@.contains_key(k) && k@ == name@
            && props@[k] == *v,
        r is None ==> forall|k: String| #[trigger] props@.contains_key(k) ==> k@ != name@,
{
    props.get(name)
}

/// Whether `v` is what a transaction's properties hold under the name
/// `value`: the value of an entry so named, or `None` when there is none.
pub open spec fn value_property_is(props: Map<String, Value>, v: Option<Value>) -> bool {
    match v {
        Some(x) => exists|k: String| #[trigger] props.contains_key(k) && k@ == "value"@ && props[k] == x,
        None => forall|k: String| #[trigger] props.contains_key(k) ==> k@ != "value"@,
    }
}

/// Whether `r` is what `message_for` gives for a kind and a `value`
/// property.
pub open spec fn message_result_is(
    kind: Seq<char>,
    v: Option<Value>,
    r: Result<KafkaPublishPayload, RelayError>,
) -> bool {
    let value = match v {
        Some(x) => Some(&x),
        None => None,
    };
    match r {
        Ok(p) => message_for(kind, value) matches Ok(parts) && parts == message_parts(p),
        Err(e) => message_for(kind, value) matches Err(f) && f == e,
    }
}

/// The Kafka message for a queued transaction of the given kind: the one
/// that the transaction's own `value` property gives (see
/// `kafka_message_from_value`). Refused with `UnknownKind` exactly when the
/// kind is not known, and with `MissingRecord` when the `value` property is
/// missing or does not hold the kind's created record.
pub fn kafka_message_for(kind: &str, event: &TransactionWSEvent) -> (r: Result<
    KafkaPublishPayload,
    RelayError,
>)
    ensures
        route_of(kind@) is None <==> r == Err::<KafkaPublishPayload, RelayError>(
            RelayError::UnknownKind,
        ),
        exists|v: Option<Value>| value_property_is(event.additional_properties@, v)
            && #[trigger] message_result_is(kind@, v, r),
{
    let value = property_named(&event.additional_properties, "value");
    let r = kafka_message_from_value(kind, value);
    proof {
        let v = match value {
            Some(x) => Some(*x),
            None => None,
        };
        assert(value_property_is(event.additional_properties@, v));
        assert(message_result_is(kind@, v, r));
    }
    r
}

/// What becomes of a queue delivery after publishing to Kafka.
#[derive(PartialEq, Eq, Structural, Clone, Copy, Debug)]
pub enum DeliveryAck {
    /// Acknowledge it: the record reached Kafka.
    Acknowledge,
    /// Leave it unacknowledged, so that the queue delivers it again.
    LeaveUnacknowledged,
}

/// A delivery is acknowledged exactly when its record was published.
pub fn after_kafka_publish(published: bool) -> (a: DeliveryAck)
    ensures
        (a == DeliveryAck::Acknowledge) <==> published,
{
    if published {
        DeliveryAck::Acknowledge
    } else {
        DeliveryAck::LeaveUnacknowledged
    }
}

} // verus!
