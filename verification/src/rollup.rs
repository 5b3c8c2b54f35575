//! Shared records of the rollup pipeline: queue and topic names, the
//! transaction events read from the rollup's socket, and the messages
//! published to Kafka.

use vstd::prelude::*;
use std::collections::HashMap;

verus! {

/// The queue on which rollup events are relayed.
pub const SOVEREIGN_REDDIT_ROLLUP_EVENTS: &'static str = "sovereign_reddit_rollup_events";

/// Message kind of a user-creation transaction.
pub const USER_TX_KEY: &'static str = "Reddit/UserCreatedEvent";

/// Message kind of a subreddit-creation transaction.
pub const SUBREDDIT_TX_KEY: &'static str = "Reddit/SubRedditCreatedEvent";

/// Message kind of a post-creation transaction.
pub const POST_TX_KEY: &'static str = "Reddit/PostCreatedEvent";

/// Kafka topic of created users.
pub const KAFKA_USER_PUBLISH_TOPIC: &'static str = "user";

/// Kafka topic of created subreddits.
pub const KAFKA_SUBREDDIT_PUBLISH_TOPIC: &'static str = "subreddit";

/// Kafka topic of created posts.
pub const KAFKA_POST_PUBLISH_TOPIC: &'static str = "post";

/// Kafka key of created users.
pub const KAFKA_USER_PUBLISH_KEY: &'static str = "user_created_key";

/// Kafka key of created subreddits.
pub const KAFKA_SUBREDDIT_PUBLISH_KEY: &'static str = "subreddit_created_key";

/// Kafka key of created posts.
pub const KAFKA_POST_PUBLISH_KEY: &'static str = "post_created_key";

/// Schema name of user records.
pub const USER_SCHEMA: &'static str = "user";

/// Schema name of subreddit records.
pub const SUBREDDIT_SCHEMA: &'static str = "subreddit";

/// Schema name of post records.
pub const POST_SCHEMA: &'static str = "post";

/// A user-creation transaction; members other than the four named ones
/// are kept as they came.
pub struct UserTXPayload {
    pub tx_hash: String,
    pub event_type: String,
    pub number: u64,
    pub key: String,
    pub additional_properties: HashMap<String, serde_json::Value>,
}

/// A subreddit-creation transaction.
pub struct SubRedditTXPayload {
    pub tx_hash: String,
    pub event_type: String,
    pub number: u64,
    pub key: String,
    pub value: String,
    pub module: String,
}

/// A post-creation transaction.
pub struct PostTXPayload {
    pub tx_hash: String,
    pub event_type: String,
    pub number: u64,
    pub key: String,
    pub value: String,
    pub module: String,
}

/// A message to publish on a Kafka topic.
pub struct KafkaPublishPayload {
    pub payload: String,
    pub topic: String,
    pub key: String,
}

/// A transaction event as the rollup's socket sends it; members other than
/// the four named ones are kept as they came.
pub struct TransactionWSEvent {
    pub tx_hash: String,
    pub event_type: String,
    pub number: u64,
    pub key: String,
    pub additional_properties: HashMap<String, serde_json::Value>,
}

} // verus!
