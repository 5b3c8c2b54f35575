use reddit_offchain::post_error::Error;
use reddit_offchain::state_change::{
    plan_state_change_publish, state_change_answer, ChangeType, RedditCollections,
    StateChangePayload,
};

#[test]
fn collection_names_round_trip() {
    for c in [RedditCollections::USER, RedditCollections::SUBREDDIT, RedditCollections::POST] {
        let name = c.to_string();
        assert_eq!(RedditCollections::from_string(&name), Ok(c));
    }
    assert_eq!(RedditCollections::USER.to_string(), "USER");
    assert_eq!(RedditCollections::SUBREDDIT.to_string(), "SUBREDDIT");
    assert_eq!(RedditCollections::POST.to_string(), "POST");
}

#[test]
fn unknown_collection_is_named_in_the_error() {
    assert_eq!(
        RedditCollections::from_string("user"),
        Err("Unknown Collection: user".to_string())
    );
    assert_eq!(RedditCollections::from_string(""), Err("Unknown Collection: ".to_string()));
}

#[test]
fn change_type_names_round_trip() {
    assert_eq!(ChangeType::CREATED.to_string(), "CREATED");
    assert_eq!(ChangeType::UPDATED.to_string(), "UPDATED");
    assert_eq!(ChangeType::from_string("CREATED"), Ok(ChangeType::CREATED));
    assert_eq!(ChangeType::from_string("UPDATED"), Ok(ChangeType::UPDATED));
    assert_eq!(ChangeType::from_string("DELETED"), Err("Unknown Changetype: DELETED".to_string()));
}

fn change(address: &str, change: &str) -> StateChangePayload {
    StateChangePayload {
        state: RedditCollections::POST,
        change: change.to_string(),
        address: address.to_string(),
        change_type: ChangeType::CREATED,
    }
}

#[test]
fn state_change_without_address_or_change_is_refused() {
    assert_eq!(plan_state_change_publish(&change("", "x")).err(), Some(Error::MissingParams));
    assert_eq!(plan_state_change_publish(&change("addr", "")).err(), Some(Error::MissingParams));
}

#[test]
fn state_change_is_published_once_on_the_change_topic() {
    let events = plan_state_change_publish(&change("addr", "{\"a\":1}")).ok().unwrap();
    assert_eq!(events.len(), 1);
    assert_eq!(events[0].payload, "{\"a\":1}");
    assert_eq!(events[0].topic, "topic");
    assert_eq!(events[0].key, "key");
}

#[test]
fn failed_state_change_publication_is_reported_as_missing_params() {
    assert_eq!(state_change_answer(true), Ok(()));
    assert_eq!(state_change_answer(false), Err(Error::MissingParams));
}
