use reddit_offchain::cache_keys::{get_redis_key, get_redis_key_from_keys};

#[test]
fn record_key_joins_schema_and_key() {
    assert_eq!(get_redis_key("user", "0xabc"), "user_0xabc");
    assert_eq!(get_redis_key("post", ""), "post_");
}

#[test]
fn auxiliary_key_joins_three_parts() {
    assert_eq!(get_redis_key_from_keys("post", "upvote_metadata", "p1"), "post_upvote_metadata_p1");
}

#[test]
fn distinct_primary_keys_give_distinct_cache_keys() {
    assert_ne!(get_redis_key("subreddit", "a"), get_redis_key("subreddit", "b"));
}
