use reddit_offchain::db_error::Error;
use reddit_offchain::requests::LikeOrDislikePost;
use reddit_offchain::votes::{
    cache_vote_deltas, cache_vote_script, get_sql_statement_for_post_upvote, liked_post_change,
    plan_post_vote, post_vote_answer, post_vote_statement, LikedPostChange, PostVoteStatement,
};

const EXPECTED_SCRIPT_DOWN_TO_UP: &str = r#"
            local key = KEYS[1]

            redis.call('HINCRBY', key, 'downvote', -1)
            redis.call('HINCRBY', key, 'score', 2)
            redis.call('HINCRBY', key, 'upvote', 1)  
            return "OK"
            "#;

const EXPECTED_SCRIPT_DOWN_RETRACTED: &str = r#"
            local key = KEYS[1]

            redis.call('HINCRBY', key, 'downvote', -1)
            redis.call('HINCRBY', key, 'score', 1)
            redis.call('HINCRBY', key, 'upvote', 0)  
            return "OK"
            "#;

const EXPECTED_SCRIPT_UP_TO_DOWN: &str = r#"
            local key = KEYS[1]

            redis.call('HINCRBY', key, 'upvote', -1)
            redis.call('HINCRBY', key, 'score', -2)
            redis.call('HINCRBY', key, 'downvote', 1)
            return "OK"
            "#;

const EXPECTED_SCRIPT_UP_RETRACTED: &str = r#"
            local key = KEYS[1]

            redis.call('HINCRBY', key, 'upvote', -1)
            redis.call('HINCRBY', key, 'score', -1)
            redis.call('HINCRBY', key, 'downvote', 0)
            return "OK"
            "#;

const EXPECTED_SCRIPT_NEW_UP: &str = r#"
            local key = KEYS[1]

            redis.call('HINCRBY', key, 'downvote', 0)
            redis.call('HINCRBY', key, 'score', 1)
            redis.call('HINCRBY', key, 'upvote', 1)  
            return "OK"
            "#;

const EXPECTED_SCRIPT_NEW_DOWN: &str = r#"
            local key = KEYS[1]

            redis.call('HINCRBY', key, 'downvote', 1)
            redis.call('HINCRBY', key, 'score', -1)
            redis.call('HINCRBY', key, 'upvote', 0)  
            return "OK"
            "#;

const EXPECTED_SQL_ADD_UPVOTE: &str = r#"
            UPDATE posts 
            SET 
                upvote = upvote + 1,
                score = (upvote + 1) - downvote,
                  updated_at = $2
            WHERE post_sov_id = $1
            RETURNING *
            "#;

const EXPECTED_SQL_ADD_DOWNVOTE: &str = r#"
            UPDATE posts 
            SET 
                downvote = downvote + 1,
                score = upvote - (downvote + 1),
                updated_at = $2
            WHERE post_sov_id = $1
            RETURNING *
            "#;

const EXPECTED_SQL_RETRACT_UPVOTE: &str = r#"
            UPDATE posts 
            SET 
                upvote = GREATEST(upvote - 1, 0),
                score = GREATEST(upvote - 1, 0) - downvote,
                updated_at = $2
            WHERE post_sov_id = $1
            RETURNING *
            "#;

const EXPECTED_SQL_UPVOTE_TO_DOWNVOTE: &str = r#"
            UPDATE posts 
            SET 
                upvote = GREATEST(upvote - 1, 0),
                downvote = downvote + 1,
                score = GREATEST(upvote - 1, 0) - downvote,
                updated_at = $2
            WHERE post_sov_id = $1
            RETURNING *
            "#;

const EXPECTED_SQL_RETRACT_DOWNVOTE: &str = r#"
            UPDATE posts 
            SET 
                downvote = GREATEST(downvote - 1, 0),
                score = upvote - GREATEST(downvote - 1, 0),
                updated_at = $2
            WHERE post_sov_id = $1
            RETURNING *
            "#;

const EXPECTED_SQL_DOWNVOTE_TO_UPVOTE: &str = r#"
            UPDATE posts 
            SET 
                downvote = GREATEST(downvote - 1, 0),
                upvote = upvote + 1,
                score = upvote - GREATEST(downvote - 1, 0),
                updated_at = $2
            WHERE post_sov_id = $1
            RETURNING *
            "#;

fn deltas(value: i32, prev: i32) -> (i32, i32, i32) {
    let d = cache_vote_deltas(value, prev);
    (d.upvote, d.downvote, d.score)
}

#[test]
fn cache_deltas_for_each_vote_change() {
    assert_eq!(deltas(1, -1), (1, -1, 2));
    assert_eq!(deltas(0, -1), (0, -1, 1));
    assert_eq!(deltas(-1, 1), (-1, 1, -2));
    assert_eq!(deltas(0, 1), (-1, 0, -1));
    assert_eq!(deltas(1, 0), (1, 0, 1));
    assert_eq!(deltas(-1, 0), (0, 1, -1));
}

#[test]
fn cache_score_moves_by_up_less_down() {
    for value in -2..3 {
        for prev in -2..3 {
            let (u, d, s) = deltas(value, prev);
            assert_eq!(s, u - d);
        }
    }
}

#[test]
fn cache_scripts_match_the_deltas() {
    assert_eq!(cache_vote_script(1, -1), EXPECTED_SCRIPT_DOWN_TO_UP);
    assert_eq!(cache_vote_script(0, -1), EXPECTED_SCRIPT_DOWN_RETRACTED);
    assert_eq!(cache_vote_script(-1, 1), EXPECTED_SCRIPT_UP_TO_DOWN);
    assert_eq!(cache_vote_script(0, 1), EXPECTED_SCRIPT_UP_RETRACTED);
    assert_eq!(cache_vote_script(1, 0), EXPECTED_SCRIPT_NEW_UP);
    assert_eq!(cache_vote_script(-1, 0), EXPECTED_SCRIPT_NEW_DOWN);
}

#[test]
fn sql_statement_for_each_vote_change() {
    assert_eq!(get_sql_statement_for_post_upvote(1, 0), EXPECTED_SQL_ADD_UPVOTE);
    assert_eq!(get_sql_statement_for_post_upvote(-1, 0), EXPECTED_SQL_ADD_DOWNVOTE);
    assert_eq!(get_sql_statement_for_post_upvote(0, 1), EXPECTED_SQL_RETRACT_UPVOTE);
    assert_eq!(get_sql_statement_for_post_upvote(-1, 1), EXPECTED_SQL_UPVOTE_TO_DOWNVOTE);
    assert_eq!(get_sql_statement_for_post_upvote(0, -1), EXPECTED_SQL_RETRACT_DOWNVOTE);
    assert_eq!(get_sql_statement_for_post_upvote(1, -1), EXPECTED_SQL_DOWNVOTE_TO_UPVOTE);
    assert_eq!(post_vote_statement(1, -1), PostVoteStatement::DownvoteToUpvote);
    assert_eq!(post_vote_statement(7, 5), PostVoteStatement::DownvoteToUpvote);
}

#[test]
fn stored_vote_change_for_each_vote() {
    assert_eq!(liked_post_change(0, 1), LikedPostChange::Remove);
    assert_eq!(liked_post_change(1, 0), LikedPostChange::Insert { value: 1 });
    assert_eq!(liked_post_change(-1, 1), LikedPostChange::SetValue { value: -1 });
}

fn vote(post: &str, user: &str, value: i32, prev_value: i32) -> LikeOrDislikePost {
    LikeOrDislikePost { post_sov_id: post.to_string(), user_sov_id: user.to_string(), value, prev_value }
}

#[test]
fn vote_without_post_or_user_is_refused() {
    assert_eq!(plan_post_vote(&vote("", "u", 1, 0)).err(), Some(Error::MissingParams));
    assert_eq!(plan_post_vote(&vote("p", "", 1, 0)).err(), Some(Error::MissingParams));
}

#[test]
fn vote_plan_collects_every_decision() {
    let plan = plan_post_vote(&vote("p9", "u1", -1, 1)).ok().unwrap();
    assert_eq!(plan.cache_key, "post_upvote_metadata_p9");
    assert_eq!((plan.cache_deltas.upvote, plan.cache_deltas.downvote, plan.cache_deltas.score), (-1, 1, -2));
    assert_eq!(plan.cache_script, EXPECTED_SCRIPT_UP_TO_DOWN);
    assert_eq!(plan.liked_change, LikedPostChange::SetValue { value: -1 });
    assert_eq!(plan.statement, PostVoteStatement::UpvoteToDownvote);
    assert_eq!(plan.statement.sql_text(), EXPECTED_SQL_UPVOTE_TO_DOWNVOTE);
}

#[test]
fn failed_cache_update_is_refused() {
    assert_eq!(post_vote_answer(true), Ok(()));
    assert_eq!(post_vote_answer(false), Err(Error::RedisUpdateFailed));
}

#[test]
fn cached_counters_follow_a_vote_history() {
    let history = [0, 1, 0, -1, 1, -1, 0, 1];
    let mut total = (0, 0, 0);
    let mut stored: Option<i32> = None;
    for pair in history.windows(2) {
        let (prev, value) = (pair[0], pair[1]);
        let d = deltas(value, prev);
        total = (total.0 + d.0, total.1 + d.1, total.2 + d.2);
        stored = match liked_post_change(value, prev) {
            LikedPostChange::Remove => {
                assert!(stored.is_some());
                None
            }
            LikedPostChange::Insert { value } => {
                assert!(stored.is_none());
                Some(value)
            }
            LikedPostChange::SetValue { value } => {
                assert!(stored.is_some());
                Some(value)
            }
        };
        let up = if value == 1 { 1 } else { 0 };
        let down = if value == -1 { 1 } else { 0 };
        assert_eq!(total, (up, down, up - down));
        assert_eq!(stored, if value == 0 { None } else { Some(value) });
    }
}
