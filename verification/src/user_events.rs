//! The user service's consumer: each created user read from Kafka is
//! handed to the database service, with a bounded number of attempts.

use vstd::prelude::*;
use vstd::utf8::{valid_utf8, decode_utf8};
use crate::requests::CreateAndSaveModel;
use crate::rollup::USER_SCHEMA;
use crate::text::owned;

verus! {

/// Where created users are sent to be stored.
pub const USER_MODEL_CREATE_URL: &'static str = "http://localhost:3006/api/v1/model/create/user";

/// How many times a created user is sent at most.
pub const MAX_DELIVERY_ATTEMPTS: u32 = 3;

/// Calls `String::from_utf8`, which accepts exactly the valid UTF-8 byte
/// strings and decodes them.
#[verifier::external_body]
fn string_from_utf8(bytes: Vec<u8>) -> (r: Option<String>)
    ensures
        r is Some <==> valid_utf8(bytes@),
        r matches Some(s) ==> s@ == decode_utf8(bytes@),
{
    String::from_utf8(bytes).ok()
}

/// The store request for a Kafka message's payload: the user schema, and
/// the payload as text. `None` when the payload is not UTF-8.
pub fn user_model_request(payload: Vec<u8>) -> (r: Option<CreateAndSaveModel>)
    ensures
        r is Some <==> valid_utf8(payload@),
        r matches Some(req) ==> req.schema_type@ == USER_SCHEMA@ && req.data@ == decode_utf8(
            payload@,
        ),
{
    match string_from_utf8(payload) {
        Some(data) => Some(CreateAndSaveModel { schema_type: owned(USER_SCHEMA), data }),
        None => None,
    }
}

/// The progress of handing one created user to the database service.
pub struct DeliveryState {
    pub attempts: u32,
    pub delivered: bool,
}

impl DeliveryState {
    /// Another attempt is due while none has succeeded and fewer than three
    /// were made.
    pub open spec fn due(self) -> bool {
        !self.delivered && self.attempts < MAX_DELIVERY_ATTEMPTS
    }

    /// No attempt made yet.
    pub fn new() -> (s: Self)
        ensures
            s.attempts == 0,
            !s.delivered,
    {
        DeliveryState { attempts: 0, delivered: false }
    }

    pub fn wants_attempt(&self) -> (r: bool)
        ensures
            r == self.due(),
    {
        !self.delivered && self.attempts < MAX_DELIVERY_ATTEMPTS
    }

    /// Records the outcome of an attempt.
    pub fn record_attempt(&mut self, succeeded: bool)
        requires
            old(self).due(),
        ensures
            final(self).attempts == old(self).attempts + 1,
            final(self).delivered == succeeded,
    {
        self.attempts = self.attempts + 1;
        self.delivered = succeeded;
    }
}

/// The state a delivery reaches when an attempt is recorded whenever one
/// is due, the attempts succeeding as `outcomes` says, one outcome each.
pub open spec fn run_deliveries(s: DeliveryState, outcomes: Seq<bool>) -> DeliveryState
    decreases outcomes.len(),
{
    if !s.due() || outcomes.len() == 0 {
        s
    } else {
        run_deliveries(
            DeliveryState { attempts: (s.attempts + 1) as u32, delivered: outcomes[0] },
            outcomes.drop_first(),
        )
    }
}

/// A delivery makes at most three attempts, and none after the first that
/// succeeds: when the attempt numbered `i` (from 0) succeeds, the delivery
/// ends there, delivered after `i + 1` attempts; after three failures it
/// gives up, undelivered.
pub proof fn lemma_delivery_attempts_bounded(outcomes: Seq<bool>)
    ensures
        run_deliveries(DeliveryState { attempts: 0, delivered: false }, outcomes).attempts <= 3,
        outcomes.len() >= 3 && !outcomes[0] && !outcomes[1] && !outcomes[2] ==> run_deliveries(
            DeliveryState { attempts: 0, delivered: false },
            outcomes,
        ) == (DeliveryState { attempts: 3, delivered: false }),
        forall|i: int|
            0 <= i < 3 && i < outcomes.len() && outcomes[i] && (forall|j: int| 0 <= j < i ==> !outcomes[j])
                ==> #[trigger] run_deliveries(DeliveryState { attempts: 0, delivered: false }, outcomes)
                == (DeliveryState { attempts: (i + 1) as u32, delivered: true }),
{
    lemma_run_from(DeliveryState { attempts: 0, delivered: false }, outcomes);
    if outcomes.len() >= 3 && !outcomes[0] && !outcomes[1] && !outcomes[2] {
        let s1 = DeliveryState { attempts: 1, delivered: false };
        let s2 = DeliveryState { attempts: 2, delivered: false };
        let s3 = DeliveryState { attempts: 3, delivered: false };
        let o1 = outcomes.drop_first();
        let o2 = o1.drop_first();
        let o3 = o2.drop_first();
        assert(run_deliveries(s3, o3) == s3);
        assert(run_deliveries(s2, o2) == run_deliveries(s3, o3));
        assert(run_deliveries(s1, o1) == run_deliveries(s2, o2));
    }
}

proof fn lemma_run_from(s: DeliveryState, outcomes: Seq<bool>)
    requires
        s.attempts <= 3,
        !s.delivered,
    ensures
        s.attempts <= run_deliveries(s, outcomes).attempts <= 3,
        forall|i: int|
            0 <= i && s.attempts + i < 3 && i < outcomes.len() && outcomes[i] && (forall|j: int|
                0 <= j < i ==> !outcomes[j]) ==> #[trigger] run_deliveries(s, outcomes) == (DeliveryState {
                attempts: (s.attempts + i + 1) as u32,
                delivered: true,
            }),
    decreases outcomes.len(),
{
    if s.due() && outcomes.len() > 0 {
        let next = DeliveryState { attempts: (s.attempts + 1) as u32, delivered: outcomes[0] };
        let rest = outcomes.drop_first();
        if outcomes[0] {
            assert(!next.due());
            assert(run_deliveries(next, rest) == next);
            assert forall|i: int|
                0 <= i && s.attempts + i < 3 && i < outcomes.len() && outcomes[i] && (forall|j: int|
                    0 <= j < i ==> !outcomes[j]) implies #[trigger] run_deliveries(s, outcomes) == (DeliveryState {
                attempts: (s.attempts + i + 1) as u32,
                delivered: true,
            }) by {
                if i > 0 {
                    assert(!outcomes[0]);
                }
            }
        } else {
            lemma_run_from(next, rest);
            assert forall|i: int|
                0 <= i && s.attempts + i < 3 && i < outcomes.len() && outcomes[i] && (forall|j: int|
                    0 <= j < i ==> !outcomes[j]) implies #[trigger] run_deliveries(s, outcomes) == (DeliveryState {
                attempts: (s.attempts + i + 1) as u32,
                delivered: true,
            }) by {
                assert(i > 0);
                assert(rest[i - 1] == outcomes[i]);
                assert forall|j: int| 0 <= j < i - 1 implies !rest[j] by {
                    assert(rest[j] == outcomes[j + 1]);
                }
                assert(run_deliveries(next, rest) == (DeliveryState {
                    attempts: (next.attempts + (i - 1) + 1) as u32,
                    delivered: true,
                }));
            }
        }
    }
}

} // verus!
