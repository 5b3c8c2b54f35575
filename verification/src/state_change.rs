//! Chain state changes reported to the relay service.

use vstd::prelude::*;
use crate::text::{str_eq, owned, concat2};
use crate::post_error::Error;
use crate::rollup::KafkaPublishPayload;

verus! {

/// The collections whose state the rollup reports changes of.
#[derive(PartialEq, Eq, Structural, Clone, Copy, Debug)]
pub enum RedditCollections {
    USER,
    SUBREDDIT,
    POST,
}

impl RedditCollections {
    /// The wire name of a collection.
    pub open spec fn name(self) -> Seq<char> {
        match self {
            RedditCollections::USER => "USER"@,
            RedditCollections::SUBREDDIT => "SUBREDDIT"@,
            RedditCollections::POST => "POST"@,
        }
    }

    pub fn to_string(&self) -> (s: String)
        ensures
            s@ == self.name(),
    {
        match self {
            RedditCollections::USER => owned("USER"),
            RedditCollections::SUBREDDIT => owned("SUBREDDIT"),
            RedditCollections::POST => owned("POST"),
        }
    }

    /// Parses a wire name; any other text is refused with a message naming it.
    pub fn from_string(s: &str) -> (r: Result<Self, String>)
        ensures
            match r {
                Ok(c) => c.name() == s@,
                Err(msg) => {
                    &&& msg@ == "Unknown Collection: "@ + s@
                    &&& forall|c: RedditCollections| c.name() != s@
                },
            },
    {
        if str_eq(s, "USER") {
            Ok(RedditCollections::USER)
        } else if str_eq(s, "SUBREDDIT") {
            Ok(RedditCollections::SUBREDDIT)
        } else if str_eq(s, "POST") {
            Ok(RedditCollections::POST)
        } else {
            Err(concat2("Unknown Collection: ", s))
        }
    }
}

/// Whether a reported change created a record or updated one.
#[derive(PartialEq, Eq, Structural, Clone, Copy, Debug)]
pub enum ChangeType {
    CREATED,
    UPDATED,
}

impl ChangeType {
    /// The wire name of a change type.
    pub open spec fn name(self) -> Seq<char> {
        match self {
            ChangeType::CREATED => "CREATED"@,
            ChangeType::UPDATED => "UPDATED"@,
        }
    }

    pub fn to_string(&self) -> (s: String)
        ensures
            s@ == self.name(),
    {
        match self {
            ChangeType::CREATED => owned("CREATED"),
            ChangeType::UPDATED => owned("UPDATED"),
        }
    }

    /// Parses a wire name; any other text is refused with a message naming it.
    pub fn from_string(s: &str) -> (r: Result<Self, String>)
        ensures
            match r {
                Ok(c) => c.name() == s@,
                Err(msg) => {
                    &&& msg@ == "Unknown Changetype: "@ + s@
                    &&& forall|c: ChangeType| c.name() != s@
                },
            },
    {
        if str_eq(s, "CREATED") {
            Ok(ChangeType::CREATED)
        } else if str_eq(s, "UPDATED") {
            Ok(ChangeType::UPDATED)
        } else {
            Err(concat2("Unknown Changetype: ", s))
        }
    }
}

/// Parsing a collection's own wire name gives that collection back.
pub proof fn lemma_collection_name_round_trip(c: RedditCollections)
    ensures
        forall|d: RedditCollections| d.name() == c.name() ==> d == c,
{
    reveal_strlit("USER");
    reveal_strlit("SUBREDDIT");
    reveal_strlit("POST");
    assert("USER"@[0] != "POST"@[0]);
    assert("USER"@[0] != "SUBREDDIT"@[0]);
    assert("SUBREDDIT"@[0] != "POST"@[0]);
}

/// Parsing a change type's own wire name gives that change type back.
pub proof fn lemma_change_type_name_round_trip(c: ChangeType)
    ensures
        forall|d: ChangeType| d.name() == c.name() ==> d == c,
{
    reveal_strlit("CREATED");
    reveal_strlit("UPDATED");
    assert("CREATED"@[0] != "UPDATED"@[0]);
}

/// A change of chain state, as the rollup listener reports it.
pub struct StateChangePayload {
    pub state: RedditCollections,
    pub change: String,
    pub address: String,
    pub change_type: ChangeType,
}

impl StateChangePayload {
    pub open spec fn lacks_params(&self) -> bool {
        self.address@.len() == 0 || self.change@.len() == 0
    }

    /// True when the address or the change is empty.
    pub fn missing_params(&self) -> (r: bool)
        ensures
            r == self.lacks_params(),
    {
        self.address.as_str().is_empty() || self.change.as_str().is_empty()
    }
}

/// The topic on which chain changes are published.
pub const STATE_CHANGE_TOPIC: &'static str = "topic";

/// The message key of published chain changes.
pub const STATE_CHANGE_KEY: &'static str = "key";

/// The Kafka messages for a reported change: refused with `MissingParams`
/// exactly when the address or the change is empty; otherwise one message
/// that carries the change.
pub fn plan_state_change_publish(p: &StateChangePayload) -> (r: Result<Vec<KafkaPublishPayload>, Error>)
    ensures
        p.lacks_params() <==> r is Err,
        r matches Err(e) ==> e == Error::MissingParams,
        r matches Ok(v) ==> {
            &&& v.len() == 1
            &&& v[0].payload@ == p.change@
            &&& v[0].topic@ == STATE_CHANGE_TOPIC@
            &&& v[0].key@ == STATE_CHANGE_KEY@
        },
{
    if p.missing_params() {
        return Err(Error::MissingParams);
    }
    let mut events = Vec::new();
    events.push(KafkaPublishPayload {
        payload: p.change.clone(),
        topic: owned(STATE_CHANGE_TOPIC),
        key: owned(STATE_CHANGE_KEY),
    });
    Ok(events)
}

/// A change whose publication failed is refused, reported as
/// `MissingParams`.
pub fn state_change_answer(published: bool) -> (r: Result<(), Error>)
    ensures
        published <==> r is Ok,
        r matches Err(e) ==> e == Error::MissingParams,
{
    if published {
        Ok(())
    } else {
        Err(Error::MissingParams)
    }
}

} // verus!
