//! Votes on posts: how a vote moves the cached counters, which row update
//! the database gets, and what becomes of the user's stored vote.

use vstd::prelude::*;
use crate::cache_keys::{get_redis_key_from_keys, auxiliary_key};
use crate::db_error::Error;
use crate::http_status::ResponseStatus;
use crate::requests::LikeOrDislikePost;

verus! {

// Scripts that move the counters of a post's vote hash in the cache; each
// takes the hash's key as its only key.

pub const CACHE_SCRIPT_DOWN_TO_UP: &'static str = r#"
            local key = KEYS[1]

            redis.call('HINCRBY', key, 'downvote', -1)
            redis.call('HINCRBY', key, 'score', 2)
            redis.call('HINCRBY', key, 'upvote', 1)  
            return "OK"
            "#;

pub const CACHE_SCRIPT_DOWN_RETRACTED: &'static str = r#"
            local key = KEYS[1]

            redis.call('HINCRBY', key, 'downvote', -1)
            redis.call('HINCRBY', key, 'score', 1)
            redis.call('HINCRBY', key, 'upvote', 0)  
            return "OK"
            "#;

pub const CACHE_SCRIPT_UP_TO_DOWN: &'static str = r#"
            local key = KEYS[1]

            redis.call('HINCRBY', key, 'upvote', -1)
            redis.call('HINCRBY', key, 'score', -2)
            redis.call('HINCRBY', key, 'downvote', 1)
            return "OK"
            "#;

pub const CACHE_SCRIPT_UP_RETRACTED: &'static str = r#"
            local key = KEYS[1]

            redis.call('HINCRBY', key, 'upvote', -1)
            redis.call('HINCRBY', key, 'score', -1)
            redis.call('HINCRBY', key, 'downvote', 0)
            return "OK"
            "#;

pub const CACHE_SCRIPT_NEW_UP: &'static str = r#"
            local key = KEYS[1]

            redis.call('HINCRBY', key, 'downvote', 0)
            redis.call('HINCRBY', key, 'score', 1)
            redis.call('HINCRBY', key, 'upvote', 1)  
            return "OK"
            "#;

pub const CACHE_SCRIPT_NEW_DOWN: &'static str = r#"
            local key = KEYS[1]

            redis.call('HINCRBY', key, 'downvote', 1)
            redis.call('HINCRBY', key, 'score', -1)
            redis.call('HINCRBY', key, 'upvote', 0)  
            return "OK"
            "#;

pub const SQL_ADD_UPVOTE: &'static str = r#"
            UPDATE posts 
            SET 
                upvote = upvote + 1,
                score = (upvote + 1) - downvote,
                  updated_at = $2
            WHERE post_sov_id = $1
            RETURNING *
            "#;

pub const SQL_ADD_DOWNVOTE: &'static str = r#"
            UPDATE posts 
            SET 
                downvote = downvote + 1,
                score = upvote - (downvote + 1),
                updated_at = $2
            WHERE post_sov_id = $1
            RETURNING *
            "#;

pub const SQL_RETRACT_UPVOTE: &'static str = r#"
            UPDATE posts 
            SET 
                upvote = GREATEST(upvote - 1, 0),
                score = GREATEST(upvote - 1, 0) - downvote,
                updated_at = $2
            WHERE post_sov_id = $1
            RETURNING *
            "#;

pub const SQL_UPVOTE_TO_DOWNVOTE: &'static str = r#"
            UPDATE posts 
            SET 
                upvote = GREATEST(upvote - 1, 0),
                downvote = downvote + 1,
                score = GREATEST(upvote - 1, 0) - downvote,
                updated_at = $2
            WHERE post_sov_id = $1
            RETURNING *
            "#;

pub const SQL_RETRACT_DOWNVOTE: &'static str = r#"
            UPDATE posts 
            SET 
                downvote = GREATEST(downvote - 1, 0),
                score = upvote - GREATEST(downvote - 1, 0),
                updated_at = $2
            WHERE post_sov_id = $1
            RETURNING *
            "#;

pub const SQL_DOWNVOTE_TO_UPVOTE: &'static str = r#"
            UPDATE posts 
            SET 
                downvote = GREATEST(downvote - 1, 0),
                upvote = upvote + 1,
                score = upvote - GREATEST(downvote - 1, 0),
                updated_at = $2
            WHERE post_sov_id = $1
            RETURNING *
            "#;

/// Number of up votes a single vote counts for.
pub open spec fn ups(v: int) -> int {
    if v == 1 { 1 } else { 0 }
}

/// Number of down votes a single vote counts for.
pub open spec fn downs(v: int) -> int {
    if v == -1 { 1 } else { 0 }
}

/// A vote is 1 (up), -1 (down) or 0 (none).
pub open spec fn is_vote(v: int) -> bool {
    v == 1 || v == -1 || v == 0
}

/// A change of one user's vote: both ends are votes, and they differ.
pub open spec fn is_vote_change(value: int, prev: int) -> bool {
    is_vote(value) && is_vote(prev) && value != prev
}

/// How much the cached up, down and score counters move, as chosen from the
/// previous and the new vote.
pub struct VoteDeltas {
    pub upvote: i32,
    pub downvote: i32,
    pub score: i32,
}

impl VoteDeltas {
    pub open spec fn as_triple(self) -> (int, int, int) {
        (self.upvote as int, self.downvote as int, self.score as int)
    }
}

/// The moves (up, down, score) of the cached counters for a vote `value`
/// that replaces `prev`.
pub open spec fn cache_moves(value: int, prev: int) -> (int, int, int) {
    if prev == -1 {
        if value == 1 { (1, -1, 2) } else { (0, -1, 1) }
    } else if prev == 1 {
        if value == -1 { (-1, 1, -2) } else { (-1, 0, -1) }
    } else {
        if value == 1 { (1, 0, 1) } else { (0, 1, -1) }
    }
}

/// The script that applies the given counter moves.
pub open spec fn cache_script_for(moves: (int, int, int)) -> Seq<char> {
    if moves == (1int, -1int, 2int) {
        CACHE_SCRIPT_DOWN_TO_UP@
    } else if moves == (0int, -1int, 1int) {
        CACHE_SCRIPT_DOWN_RETRACTED@
    } else if moves == (-1int, 1int, -2int) {
        CACHE_SCRIPT_UP_TO_DOWN@
    } else if moves == (-1int, 0int, -1int) {
        CACHE_SCRIPT_UP_RETRACTED@
    } else if moves == (1int, 0int, 1int) {
        CACHE_SCRIPT_NEW_UP@
    } else {
        CACHE_SCRIPT_NEW_DOWN@
    }
}

pub fn cache_vote_deltas(value: i32, prev_value: i32) -> (d: VoteDeltas)
    ensures
        d.as_triple() == cache_moves(value as int, prev_value as int),
{
    if prev_value == -1 {
        if value == 1 {
            VoteDeltas { upvote: 1, downvote: -1, score: 2 }
        } else {
            VoteDeltas { upvote: 0, downvote: -1, score: 1 }
        }
    } else if prev_value == 1 {
        if value == -1 {
            VoteDeltas { upvote: -1, downvote: 1, score: -2 }
        } else {
            VoteDeltas { upvote: -1, downvote: 0, score: -1 }
        }
    } else {
        if value == 1 {
            VoteDeltas { upvote: 1, downvote: 0, score: 1 }
        } else {
            VoteDeltas { upvote: 0, downvote: 1, score: -1 }
        }
    }
}

/// The cache script run for a vote `value` that replaces `prev_value`.
pub fn cache_vote_script(value: i32, prev_value: i32) -> (s: &'static str)
    ensures
        s@ == cache_script_for(cache_moves(value as int, prev_value as int)),
{
    if prev_value == -1 {
        if value == 1 { CACHE_SCRIPT_DOWN_TO_UP } else { CACHE_SCRIPT_DOWN_RETRACTED }
    } else if prev_value == 1 {
        if value == -1 { CACHE_SCRIPT_UP_TO_DOWN } else { CACHE_SCRIPT_UP_RETRACTED }
    } else {
        if value == 1 { CACHE_SCRIPT_NEW_UP } else { CACHE_SCRIPT_NEW_DOWN }
    }
}

/// Whatever the inputs, the score moves by the up move less the down move.
pub proof fn lemma_cache_moves_balanced(value: int, prev: int)
    ensures
        cache_moves(value, prev).2 == cache_moves(value, prev).0 - cache_moves(value, prev).1,
{
}

/// When a user changes a vote, the cached counters move by exactly the
/// change in what that user's vote counts for.
pub proof fn lemma_cache_moves_track_vote_change(value: int, prev: int)
    requires
        is_vote_change(value, prev),
    ensures
        cache_moves(value, prev) == (
            ups(value) - ups(prev),
            downs(value) - downs(prev),
            (ups(value) - downs(value)) - (ups(prev) - downs(prev)),
        ),
{
}

/// The row update that a vote makes to the post's counters in the database.
#[derive(PartialEq, Eq, Structural, Clone, Copy, Debug)]
pub enum PostVoteStatement {
    AddUpvote,
    AddDownvote,
    RetractUpvote,
    UpvoteToDownvote,
    RetractDownvote,
    DownvoteToUpvote,
}

/// Which update a vote `value` replacing `prev` makes.
pub open spec fn statement_for(value: int, prev: int) -> PostVoteStatement {
    if prev == 0 {
        if value == 1 { PostVoteStatement::AddUpvote } else { PostVoteStatement::AddDownvote }
    } else if prev == 1 {
        if value == 0 { PostVoteStatement::RetractUpvote } else { PostVoteStatement::UpvoteToDownvote }
    } else {
        if value == 0 { PostVoteStatement::RetractDownvote } else { PostVoteStatement::DownvoteToUpvote }
    }
}

impl PostVoteStatement {
    /// The SQL text of the update; `$1` is the post and `$2` the time.
    pub open spec fn sql(self) -> Seq<char> {
        match self {
            PostVoteStatement::AddUpvote => SQL_ADD_UPVOTE@,
            PostVoteStatement::AddDownvote => SQL_ADD_DOWNVOTE@,
            PostVoteStatement::RetractUpvote => SQL_RETRACT_UPVOTE@,
            PostVoteStatement::UpvoteToDownvote => SQL_UPVOTE_TO_DOWNVOTE@,
            PostVoteStatement::RetractDownvote => SQL_RETRACT_DOWNVOTE@,
            PostVoteStatement::DownvoteToUpvote => SQL_DOWNVOTE_TO_UPVOTE@,
        }
    }

    /// The post's counters after the update, as the SQL text reads: every
    /// right-hand side is evaluated on the row before the update.
    pub open spec fn apply(self, c: PostCounters) -> PostCounters {
        match self {
            PostVoteStatement::AddUpvote => PostCounters {
                upvote: c.upvote + 1,
                downvote: c.downvote,
                score: (c.upvote + 1) - c.downvote,
            },
            PostVoteStatement::AddDownvote => PostCounters {
                upvote: c.upvote,
                downvote: c.downvote + 1,
                score: c.upvote - (c.downvote + 1),
            },
            PostVoteStatement::RetractUpvote => PostCounters {
                upvote: greatest(c.upvote - 1, 0),
                downvote: c.downvote,
                score: greatest(c.upvote - 1, 0) - c.downvote,
            },
            PostVoteStatement::UpvoteToDownvote => PostCounters {
                upvote: greatest(c.upvote - 1, 0),
                downvote: c.downvote + 1,
                score: greatest(c.upvote - 1, 0) - c.downvote,
            },
            PostVoteStatement::RetractDownvote => PostCounters {
                upvote: c.upvote,
                downvote: greatest(c.downvote - 1, 0),
                score: c.upvote - greatest(c.downvote - 1, 0),
            },
            PostVoteStatement::DownvoteToUpvote => PostCounters {
                upvote: c.upvote + 1,
                downvote: greatest(c.downvote - 1, 0),
                score: c.upvote - greatest(c.downvote - 1, 0),
            },
        }
    }
}

/// The larger of two integers, as SQL's `GREATEST`.
pub open spec fn greatest(a: int, b: int) -> int {
    if a >= b { a } else { b }
}

/// The vote counters of a post row.
pub struct PostCounters {
    pub upvote: int,
    pub downvote: int,
    pub score: int,
}

pub fn post_vote_statement(value: i32, prev_value: i32) -> (s: PostVoteStatement)
    ensures
        s == statement_for(value as int, prev_value as int),
{
    if prev_value == 0 {
        if value == 1 { PostVoteStatement::AddUpvote } else { PostVoteStatement::AddDownvote }
    } else if prev_value == 1 {
        if value == 0 { PostVoteStatement::RetractUpvote } else { PostVoteStatement::UpvoteToDownvote }
    } else {
        if value == 0 { PostVoteStatement::RetractDownvote } else { PostVoteStatement::DownvoteToUpvote }
    }
}

impl PostVoteStatement {
    /// The SQL text of the update.
    pub fn sql_text(&self) -> (s: &'static str)
        ensures
            s@ == self.sql(),
    {
        match self {
            PostVoteStatement::AddUpvote => SQL_ADD_UPVOTE,
            PostVoteStatement::AddDownvote => SQL_ADD_DOWNVOTE,
            PostVoteStatement::RetractUpvote => SQL_RETRACT_UPVOTE,
            PostVoteStatement::UpvoteToDownvote => SQL_UPVOTE_TO_DOWNVOTE,
            PostVoteStatement::RetractDownvote => SQL_RETRACT_DOWNVOTE,
            PostVoteStatement::DownvoteToUpvote => SQL_DOWNVOTE_TO_UPVOTE,
        }
    }
}

pub fn get_sql_statement_for_post_upvote(value: i32, prev_value: i32) -> (s: &'static str)
    ensures
        s@ == statement_for(value as int, prev_value as int).sql(),
{
    post_vote_statement(value, prev_value).sql_text()
}

/// When a user changes a vote on a post whose counters include that user's
/// previous vote, the update moves the up and down counters by exactly the
/// change in what the vote counts for.
pub proof fn lemma_statement_tracks_vote_change(value: int, prev: int, c: PostCounters)
    requires
        is_vote_change(value, prev),
        c.upvote >= ups(prev),
        c.downvote >= downs(prev),
    ensures
        statement_for(value, prev).apply(c).upvote == c.upvote + ups(value) - ups(prev),
        statement_for(value, prev).apply(c).downvote == c.downvote + downs(value) - downs(prev),
{
}

/// After an update for a vote change that adds or retracts a vote, the
/// score is the up count less the down count. A vote that switches sides
/// (from up to down or from down to up) is left out: its update computes
/// the score from the other counter's old value.
pub proof fn lemma_statement_keeps_score(value: int, prev: int, c: PostCounters)
    requires
        is_vote_change(value, prev),
        c.upvote >= ups(prev),
        c.downvote >= downs(prev),
        !(value == 1 && prev == -1),
        !(value == -1 && prev == 1),
    ensures
        statement_for(value, prev).apply(c).score == statement_for(value, prev).apply(c).upvote
            - statement_for(value, prev).apply(c).downvote,
{
}

/// What happens to the row that stores the user's vote on the post.
#[derive(PartialEq, Eq, Structural, Clone, Copy, Debug)]
pub enum LikedPostChange {
    /// The stored vote is looked up and deleted.
    Remove,
    /// A new row stores the vote.
    Insert { value: i32 },
    /// The stored rows of this user and post get the new value.
    SetValue { value: i32 },
}

/// The change a vote `value` replacing `prev` makes to the stored vote.
pub open spec fn liked_change_for(value: i32, prev: i32) -> LikedPostChange {
    if value == 0 {
        LikedPostChange::Remove
    } else if prev == 0 {
        LikedPostChange::Insert { value }
    } else {
        LikedPostChange::SetValue { value }
    }
}

pub fn liked_post_change(value: i32, prev_value: i32) -> (c: LikedPostChange)
    ensures
        c == liked_change_for(value, prev_value),
{
    if value == 0 {
        LikedPostChange::Remove
    } else if prev_value == 0 {
        LikedPostChange::Insert { value }
    } else {
        LikedPostChange::SetValue { value }
    }
}

/// The stored vote of a user on a post: no row for 0, else the vote.
pub open spec fn stored_vote(v: int) -> Option<int> {
    if v == 0 { None } else { Some(v) }
}

impl LikedPostChange {
    /// The stored vote after the change. `None` where the change cannot be
    /// applied: removing a vote that is not stored.
    pub open spec fn apply(self, stored: Option<int>) -> Option<Option<int>> {
        match self {
            LikedPostChange::Remove => if stored is Some { Some(None) } else { None },
            LikedPostChange::Insert { value } => Some(Some(value as int)),
            LikedPostChange::SetValue { value } => match stored {
                Some(_) => Some(Some(value as int)),
                None => Some(None),
            },
        }
    }
}

/// When the stored vote matches the previous vote, a vote change leaves the
/// new vote stored.
pub proof fn lemma_liked_change_stores_new_vote(value: i32, prev: i32)
    requires
        is_vote_change(value as int, prev as int),
    ensures
        liked_change_for(value, prev).apply(stored_vote(prev as int)) == Some(
            stored_vote(value as int),
        ),
{
}

// ---------------------------------------------------------------------------
// One user's votes on one post, over time

/// A history of one user's votes on a post: it starts with no vote, and
/// each step changes the vote.
pub open spec fn is_vote_history(h: Seq<i32>) -> bool {
    &&& h.len() >= 1
    &&& h[0] == 0
    &&& forall|i: int| 0 <= i < h.len() - 1 ==> #[trigger] is_vote_change(h[i + 1] as int, h[i] as int)
}

/// How far the cached counters have moved over a history of votes.
pub open spec fn history_moves(h: Seq<i32>) -> (int, int, int)
    decreases h.len(),
{
    if h.len() <= 1 {
        (0, 0, 0)
    } else {
        let m = cache_moves(h.last() as int, h[h.len() - 2] as int);
        let r = history_moves(h.drop_last());
        (r.0 + m.0, r.1 + m.1, r.2 + m.2)
    }
}

/// The stored vote after a history of votes, as the stored-vote changes
/// leave it; `None` where a change could not apply.
pub open spec fn history_stored(h: Seq<i32>) -> Option<Option<int>>
    decreases h.len(),
{
    if h.len() <= 1 {
        Some(None)
    } else {
        match history_stored(h.drop_last()) {
            Some(stored) => liked_change_for(h.last(), h[h.len() - 2]).apply(stored),
            None => None,
        }
    }
}

/// The post's counters in the table after a history of votes, starting
/// from `c`.
pub open spec fn history_counters(h: Seq<i32>, c: PostCounters) -> PostCounters
    decreases h.len(),
{
    if h.len() <= 1 {
        c
    } else {
        statement_for(h.last() as int, h[h.len() - 2] as int).apply(history_counters(h.drop_last(), c))
    }
}

/// A step of a history that switches an up vote straight to a down vote or
/// back.
pub open spec fn has_switch(h: Seq<i32>) -> bool {
    exists|i: int| 0 <= i < h.len() - 1 && #[trigger] h[i + 1] == -h[i] && h[i] != 0
}

proof fn lemma_history_prefix(h: Seq<i32>)
    requires
        is_vote_history(h),
        h.len() >= 2,
    ensures
        is_vote_history(h.drop_last()),
        is_vote_change(h.last() as int, h[h.len() - 2] as int),
{
    let t = h.drop_last();
    assert forall|i: int| 0 <= i < t.len() - 1 implies #[trigger] is_vote_change(
        t[i + 1] as int,
        t[i] as int,
    ) by {
        assert(t[i] == h[i] && t[i + 1] == h[i + 1]);
        assert(is_vote_change(h[i + 1] as int, h[i] as int));
    }
    assert(is_vote_change(h[h.len() - 2 + 1] as int, h[h.len() - 2] as int));
}

/// However a user's votes on a post change, the cached counters have moved
/// by exactly what the current vote counts for: one up vote, one down vote
/// or none, and the score by their difference.
pub proof fn lemma_cached_counters_follow_the_vote(h: Seq<i32>)
    requires
        is_vote_history(h),
    ensures
        history_moves(h) == (
            ups(h.last() as int),
            downs(h.last() as int),
            ups(h.last() as int) - downs(h.last() as int),
        ),
    decreases h.len(),
{
    if h.len() >= 2 {
        lemma_history_prefix(h);
        lemma_cached_counters_follow_the_vote(h.drop_last());
        lemma_cache_moves_track_vote_change(h.last() as int, h[h.len() - 2] as int);
    }
}

/// However a user's votes on a post change, the stored vote is the current
/// one: no row for no vote, else a row holding the vote.
pub proof fn lemma_stored_vote_follows_the_vote(h: Seq<i32>)
    requires
        is_vote_history(h),
    ensures
        history_stored(h) == Some(stored_vote(h.last() as int)),
    decreases h.len(),
{
    if h.len() >= 2 {
        lemma_history_prefix(h);
        lemma_stored_vote_follows_the_vote(h.drop_last());
        lemma_liked_change_stores_new_vote(h.last(), h[h.len() - 2]);
    }
}

/// However a user's votes on a post change, the post's up and down counts
/// in the table have moved by exactly what the current vote counts for.
pub proof fn lemma_table_counts_follow_the_vote(h: Seq<i32>, c: PostCounters)
    requires
        is_vote_history(h),
        c.upvote >= 0,
        c.downvote >= 0,
    ensures
        history_counters(h, c).upvote == c.upvote + ups(h.last() as int),
        history_counters(h, c).downvote == c.downvote + downs(h.last() as int),
    decreases h.len(),
{
    if h.len() >= 2 {
        lemma_history_prefix(h);
        lemma_table_counts_follow_the_vote(h.drop_last(), c);
        lemma_statement_tracks_vote_change(
            h.last() as int,
            h[h.len() - 2] as int,
            history_counters(h.drop_last(), c),
        );
    }
}

/// As long as no vote is switched straight from up to down or back, the
/// post's score in the table stays its up count less its down count.
pub proof fn lemma_table_score_follows_the_counts(h: Seq<i32>, c: PostCounters)
    requires
        is_vote_history(h),
        !has_switch(h),
        c.upvote >= 0,
        c.downvote >= 0,
        c.score == c.upvote - c.downvote,
    ensures
        history_counters(h, c).score == history_counters(h, c).upvote - history_counters(h, c).downvote,
    decreases h.len(),
{
    if h.len() >= 2 {
        let t = h.drop_last();
        lemma_history_prefix(h);
        assert(!has_switch(t)) by {
            if has_switch(t) {
                let i = choose|i: int| 0 <= i < t.len() - 1 && #[trigger] t[i + 1] == -t[i] && t[i] != 0;
                assert(h[i + 1] == -h[i]);
            }
        }
        lemma_table_score_follows_the_counts(t, c);
        lemma_table_counts_follow_the_vote(t, c);
        let n = h.len() - 2;
        assert(!(h[n + 1] == -h[n] && h[n] != 0));
        lemma_statement_keeps_score(h.last() as int, h[n] as int, history_counters(t, c));
    }
}

/// Everything a vote on a post does, apart from the writes themselves.
pub struct PostVotePlan {
    /// The key of the post's vote hash in the cache.
    pub cache_key: String,
    /// How the cache script moves the counters.
    pub cache_deltas: VoteDeltas,
    /// The script run on the cache.
    pub cache_script: &'static str,
    /// What happens to the stored vote.
    pub liked_change: LikedPostChange,
    /// The update of the post row.
    pub statement: PostVoteStatement,
}

impl PostVotePlan {
    /// The plan for a vote that names its post and user.
    pub open spec fn describes(self, p: LikeOrDislikePost) -> bool {
        &&& self.cache_key@ == auxiliary_key("post"@, "upvote_metadata"@, p.post_sov_id@)
        &&& self.cache_deltas.as_triple() == cache_moves(p.value as int, p.prev_value as int)
        &&& self.cache_script@ == cache_script_for(cache_moves(p.value as int, p.prev_value as int))
        &&& self.liked_change == liked_change_for(p.value, p.prev_value)
        &&& self.statement == statement_for(p.value as int, p.prev_value as int)
    }
}

/// Plans a vote: refused with `MissingParams` exactly when the post or the
/// user is not named.
pub fn plan_post_vote(p: &LikeOrDislikePost) -> (r: Result<PostVotePlan, Error>)
    ensures
        p.lacks_params() <==> r is Err,
        r matches Err(e) ==> e == Error::MissingParams,
        r matches Ok(plan) ==> plan.describes(*p),
{
    if p.missing_params() {
        return Err(Error::MissingParams);
    }
    let cache_key = get_redis_key_from_keys("post", "upvote_metadata", p.post_sov_id.as_str());
    Ok(PostVotePlan {
        cache_key,
        cache_deltas: cache_vote_deltas(p.value, p.prev_value),
        cache_script: cache_vote_script(p.value, p.prev_value),
        liked_change: liked_post_change(p.value, p.prev_value),
        statement: post_vote_statement(p.value, p.prev_value),
    })
}

/// The answer to a vote once the cache script has run: refused with
/// `RedisUpdateFailed` exactly when the script failed.
pub fn post_vote_answer(cache_updated: bool) -> (r: Result<(), Error>)
    ensures
        r is Ok <==> cache_updated,
        r matches Err(e) ==> e == Error::RedisUpdateFailed,
{
    if cache_updated {
        Ok(())
    } else {
        Err(Error::RedisUpdateFailed)
    }
}

} // verus!
