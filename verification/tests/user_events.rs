use reddit_offchain::user_events::{user_model_request, DeliveryState, USER_MODEL_CREATE_URL};

#[test]
fn kafka_payload_becomes_a_user_store_request() {
    let req = user_model_request("{\"user\":1}".as_bytes().to_vec()).unwrap();
    assert_eq!(req.schema_type, "user");
    assert_eq!(req.data, "{\"user\":1}");
    assert!(user_model_request(vec![0xff, 0xfe]).is_none());
    assert_eq!(USER_MODEL_CREATE_URL, "http://localhost:3006/api/v1/model/create/user");
}

fn attempts_for(outcomes: &[bool]) -> u32 {
    let mut state = DeliveryState::new();
    let mut i = 0;
    while state.wants_attempt() {
        let ok = outcomes.get(i).copied().unwrap_or(false);
        state.record_attempt(ok);
        i += 1;
    }
    state.attempts
}

#[test]
fn delivery_stops_after_success_or_three_attempts() {
    assert_eq!(attempts_for(&[true]), 1);
    assert_eq!(attempts_for(&[false, true]), 2);
    assert_eq!(attempts_for(&[false, false, true]), 3);
    assert_eq!(attempts_for(&[false, false, false, true]), 3);
    assert_eq!(attempts_for(&[]), 3);
}
