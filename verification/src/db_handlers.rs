//! What the database service's handlers decide: which requests they refuse,
//! which rows they write, and how the outcome of each database or cache
//! operation is answered.

use vstd::prelude::*;
use vstd::string::*;
use uuid::Uuid;
use chrono::NaiveDateTime;
use crate::cache_keys::{get_redis_key, record_key};
use crate::db_error::Error;
use crate::ids_and_time::{new_row_id, utc_now};
use crate::models::{comments, posts, sub_mods, subreddit, user_joined_subs, user_liked_posts, users};
use crate::requests::{
    AddCommentPayload, CreateAndSaveModel, GetCommentsForPosts, GetPostsForSubreddit,
    GetUserPostsOrCommentsPayload, JoinOrUnjoinSub, LikeOrDislikePost, SearchSubredditsPayload,
    UserFeedPayload,
};
use crate::rollup::{POST_SCHEMA, SUBREDDIT_SCHEMA, USER_SCHEMA};
use crate::text::{str_eq, owned, push_char};

verus! {

/// How long a record fetched from the database stays in the cache.
pub const CACHE_TTL_SECS: u64 = 60;

// ---------------------------------------------------------------------------
// Storing rollup records

/// The kind of record a store request carries.
#[derive(PartialEq, Eq, Structural, Clone, Copy, Debug)]
pub enum ModelSchema {
    User,
    Subreddit,
    Post,
}

/// A schema name other than the user and subreddit schemas is taken as a post.
pub open spec fn schema_of(schema_type: Seq<char>) -> ModelSchema {
    if schema_type == USER_SCHEMA@ {
        ModelSchema::User
    } else if schema_type == SUBREDDIT_SCHEMA@ {
        ModelSchema::Subreddit
    } else {
        ModelSchema::Post
    }
}

/// A store request for the user schema stores a user, one for the
/// subreddit schema a subreddit, and one for any other schema a post.
pub proof fn lemma_store_schemas(other: Seq<char>)
    requires
        other != "user"@,
        other != "subreddit"@,
    ensures
        schema_of("user"@) == ModelSchema::User,
        schema_of("subreddit"@) == ModelSchema::Subreddit,
        schema_of("post"@) == ModelSchema::Post,
        schema_of(other) == ModelSchema::Post,
{
    reveal_strlit("user");
    reveal_strlit("subreddit");
    reveal_strlit("post");
    assert("user"@[0] != "subreddit"@[0]);
    assert("user"@[0] != "post"@[0]);
    assert("subreddit"@[0] != "post"@[0]);
}

/// Decides how a store request is handled: refused with `MissingParams`
/// exactly when its schema or data is empty, else by the kind of record.
pub fn plan_create_and_save_model(p: &CreateAndSaveModel) -> (r: Result<ModelSchema, Error>)
    ensures
        p.lacks_params() <==> r is Err,
        r matches Err(e) ==> e == Error::MissingParams,
        r matches Ok(s) ==> s == schema_of(p.schema_type@),
{
    if p.missing_params() {
        return Err(Error::MissingParams);
    }
    if str_eq(p.schema_type.as_str(), USER_SCHEMA) {
        Ok(ModelSchema::User)
    } else if str_eq(p.schema_type.as_str(), SUBREDDIT_SCHEMA) {
        Ok(ModelSchema::Subreddit)
    } else {
        Ok(ModelSchema::Post)
    }
}

/// The row of a newly created user.
pub fn new_user_row(
    user_address: String,
    username: String,
    created_at: NaiveDateTime,
    updated_at: NaiveDateTime,
) -> (row: users::Model)
    ensures
        row.sov_id == user_address,
        row.username == username,
        row.created_at == created_at,
        row.updated_at == updated_at,
{
    users::Model { sov_id: user_address, username, created_at, updated_at }
}

/// The row of a newly created user, stamped with the current time.
pub fn create_user_row(user_address: String, username: String) -> (row: users::Model)
    ensures
        row.sov_id == user_address,
        row.username == username,
{
    let created_at = utc_now();
    let updated_at = utc_now();
    new_user_row(user_address, username, created_at, updated_at)
}

/// The rows a new subreddit adds: the subreddit, its first moderator (the
/// first of `mods`), and that moderator's membership.
pub struct SubredditRows {
    pub subreddit: subreddit::Model,
    pub moderator: sub_mods::Model,
    pub membership: user_joined_subs::Model,
}

pub fn new_subreddit_rows(
    subaddress: String,
    subname: String,
    description: String,
    mods: &Vec<String>,
    membership_id: Uuid,
    created_at: NaiveDateTime,
    updated_at: NaiveDateTime,
) -> (rows: SubredditRows)
    requires
        mods.len() > 0,
    ensures
        rows.subreddit.sub_sov_id == subaddress,
        rows.subreddit.subname == subname,
        rows.subreddit.sub_description == description,
        rows.moderator.sub_sov_id == subaddress,
        rows.moderator.user_sov_id@ == mods@[0]@,
        rows.moderator.subname == subname,
        rows.moderator.created_at == created_at,
        rows.moderator.updated_at == updated_at,
        rows.membership.id == membership_id,
        rows.membership.user_sov_id@ == mods@[0]@,
        rows.membership.sub_sov_id == subaddress,
        rows.membership.created_at == created_at,
        rows.membership.updated_at == updated_at,
{
    let first_mod = mods[0].clone();
    let subreddit = subreddit::Model {
        sub_sov_id: subaddress.clone(),
        subname: subname.clone(),
        sub_description: description,
    };
    let moderator = sub_mods::Model {
        sub_sov_id: subaddress.clone(),
        user_sov_id: first_mod.clone(),
        subname,
        created_at,
        updated_at,
    };
    let membership = user_joined_subs::Model {
        id: membership_id,
        user_sov_id: first_mod,
        sub_sov_id: subaddress,
        created_at,
        updated_at,
    };
    SubredditRows { subreddit, moderator, membership }
}

/// The rows of a new subreddit, with a fresh membership id and the current
/// time.
pub fn create_subreddit_rows(
    subaddress: String,
    subname: String,
    description: String,
    mods: &Vec<String>,
) -> (rows: SubredditRows)
    requires
        mods.len() > 0,
    ensures
        rows.subreddit.sub_sov_id == subaddress,
        rows.subreddit.subname == subname,
        rows.subreddit.sub_description == description,
        rows.moderator.sub_sov_id == subaddress,
        rows.moderator.user_sov_id@ == mods@[0]@,
        rows.moderator.subname == subname,
        rows.membership.user_sov_id@ == mods@[0]@,
        rows.membership.sub_sov_id == subaddress,
{
    let id = new_row_id();
    let created_at = utc_now();
    let updated_at = utc_now();
    new_subreddit_rows(subaddress, subname, description, mods, id, created_at, updated_at)
}

/// The rows a new post adds: the post, which starts with its author's up
/// vote, and that stored vote.
pub struct PostRows {
    pub post: posts::Model,
    pub author_vote: user_liked_posts::Model,
}

pub fn new_post_rows(
    subaddress: String,
    post_address: String,
    title: String,
    content: String,
    flair: String,
    user_address: String,
    vote_id: Uuid,
    created_at: NaiveDateTime,
    updated_at: NaiveDateTime,
) -> (rows: PostRows)
    ensures
        rows.post.sub_sov_id == subaddress,
        rows.post.post_sov_id == post_address,
        rows.post.title == title,
        rows.post.content == content,
        rows.post.flair == flair,
        rows.post.user_sov_id == user_address,
        rows.post.upvote == 1,
        rows.post.downvote == 0,
        rows.post.score == 1,
        rows.author_vote.id == vote_id,
        rows.author_vote.post_sov_id == post_address,
        rows.author_vote.user_sov_id == user_address,
        rows.author_vote.value == 1,
        rows.author_vote.created_at == created_at,
        rows.author_vote.updated_at == updated_at,
{
    let post = posts::Model {
        post_sov_id: post_address.clone(),
        title,
        content,
        sub_sov_id: subaddress,
        flair,
        user_sov_id: user_address.clone(),
        upvote: 1,
        downvote: 0,
        score: 1,
    };
    let author_vote = user_liked_posts::Model {
        id: vote_id,
        user_sov_id: user_address,
        post_sov_id: post_address,
        value: 1,
        created_at,
        updated_at,
    };
    PostRows { post, author_vote }
}

/// The rows of a new post, with a fresh vote id and the current time.
pub fn create_post_rows(
    subaddress: String,
    post_address: String,
    title: String,
    content: String,
    flair: String,
    user_address: String,
) -> (rows: PostRows)
    ensures
        rows.post.sub_sov_id == subaddress,
        rows.post.post_sov_id == post_address,
        rows.post.title == title,
        rows.post.content == content,
        rows.post.flair == flair,
        rows.post.user_sov_id == user_address,
        rows.post.upvote == 1,
        rows.post.downvote == 0,
        rows.post.score == 1,
        rows.author_vote.post_sov_id == post_address,
        rows.author_vote.user_sov_id == user_address,
        rows.author_vote.value == 1,
{
    let id = new_row_id();
    let created_at = utc_now();
    let updated_at = utc_now();
    new_post_rows(subaddress, post_address, title, content, flair, user_address, id, created_at, updated_at)
}

// ---------------------------------------------------------------------------
// Fetching one record, through the cache

/// The table a record is fetched from.
#[derive(PartialEq, Eq, Structural, Clone, Copy, Debug)]
pub enum ModelTable {
    Users,
    Subreddits,
    Posts,
}

/// The table of each fetchable schema; `None` for any other schema.
pub open spec fn table_of(schema: Seq<char>) -> Option<ModelTable> {
    if schema == USER_SCHEMA@ {
        Some(ModelTable::Users)
    } else if schema == SUBREDDIT_SCHEMA@ {
        Some(ModelTable::Subreddits)
    } else if schema == POST_SCHEMA@ {
        Some(ModelTable::Posts)
    } else {
        None
    }
}

/// Users are fetched from the users table, subreddits from the subreddit
/// table, posts from the posts table; no other schema is fetched.
pub proof fn lemma_fetch_tables()
    ensures
        table_of("user"@) == Some(ModelTable::Users),
        table_of("subreddit"@) == Some(ModelTable::Subreddits),
        table_of("post"@) == Some(ModelTable::Posts),
        forall|s: Seq<char>| #[trigger] table_of(s) is Some ==> s == "user"@ || s == "subreddit"@ || s == "post"@,
{
    reveal_strlit("user");
    reveal_strlit("subreddit");
    reveal_strlit("post");
    assert("user"@[0] != "subreddit"@[0]);
    assert("user"@[0] != "post"@[0]);
    assert("subreddit"@[0] != "post"@[0]);
}

/// Where a record is looked for: the cache key, then the table.
pub struct FetchPlan {
    pub table: ModelTable,
    pub cache_key: String,
}

/// Plans a fetch: refused with `UnexpectedError` exactly when the schema is
/// not one of the user, subreddit and post schemas.
pub fn plan_fetch(schema: &str, primary_key: &str) -> (r: Result<FetchPlan, Error>)
    ensures
        table_of(schema@) is None <==> r is Err,
        r matches Err(e) ==> e == Error::UnexpectedError,
        r matches Ok(plan) ==> Some(plan.table) == table_of(schema@) && plan.cache_key@
            == record_key(schema@, primary_key@),
        schema@ == "user"@ ==> (r matches Ok(plan) && plan.table == ModelTable::Users),
        schema@ == "subreddit"@ ==> (r matches Ok(plan) && plan.table == ModelTable::Subreddits),
        schema@ == "post"@ ==> (r matches Ok(plan) && plan.table == ModelTable::Posts),
{
    proof {
        lemma_fetch_tables();
    }
    let table = if str_eq(schema, USER_SCHEMA) {
        ModelTable::Users
    } else if str_eq(schema, SUBREDDIT_SCHEMA) {
        ModelTable::Subreddits
    } else if str_eq(schema, POST_SCHEMA) {
        ModelTable::Posts
    } else {
        return Err(Error::UnexpectedError);
    };
    Ok(FetchPlan { table, cache_key: get_redis_key(schema, primary_key) })
}

/// The step after the cache has been read.
#[derive(PartialEq, Eq, Structural, Clone, Copy, Debug)]
pub enum AfterCacheRead {
    /// Answer with the cached rows.
    AnswerFromCache,
    /// Look the record up in its table.
    QueryDatabase,
}

/// A cached entry is used as it is; without one the table is queried.
pub fn after_cache_read(cache_hit: bool) -> (next: AfterCacheRead)
    ensures
        cache_hit <==> next == AfterCacheRead::AnswerFromCache,
{
    if cache_hit {
        AfterCacheRead::AnswerFromCache
    } else {
        AfterCacheRead::QueryDatabase
    }
}

/// The step after the table has been queried.
#[derive(PartialEq, Eq, Structural, Clone, Copy, Debug)]
pub enum AfterDatabaseQuery {
    /// Keep the found rows in the cache for this many seconds, and answer
    /// with them.
    CacheAndAnswer { ttl_secs: u64 },
}

/// A successful query is cached for a minute and answered; a failed one is
/// refused with `UnexpectedError`.
pub fn after_database_query(query_ok: bool) -> (r: Result<AfterDatabaseQuery, Error>)
    ensures
        query_ok <==> r is Ok,
        r matches Ok(next) ==> next == (AfterDatabaseQuery::CacheAndAnswer { ttl_secs: 60 }),
        r matches Err(e) ==> e == Error::UnexpectedError,
{
    if query_ok {
        Ok(AfterDatabaseQuery::CacheAndAnswer { ttl_secs: CACHE_TTL_SECS })
    } else {
        Err(Error::UnexpectedError)
    }
}

// ---------------------------------------------------------------------------
// Joining and leaving subreddits

/// What a join request does to the user's membership.
#[derive(PartialEq, Eq, Structural, Clone, Copy, Debug)]
pub enum MembershipChange {
    /// Look the membership up and delete it.
    Leave,
    /// Add a membership row.
    Join,
}

/// Plans a join request: `MissingParams` when the user or subreddit is not
/// named; otherwise `value` -1 leaves, 1 joins, and any other value is
/// refused with `SomeErrorOccurred`.
pub fn plan_join_or_unjoin(p: &JoinOrUnjoinSub) -> (r: Result<MembershipChange, Error>)
    ensures
        p.lacks_params() ==> r == Err::<MembershipChange, Error>(Error::MissingParams),
        !p.lacks_params() ==> r == (if p.value == -1 {
            Ok(MembershipChange::Leave)
        } else if p.value == 1 {
            Ok(MembershipChange::Join)
        } else {
            Err(Error::SomeErrorOccurred)
        }),
{
    if p.missing_params() {
        return Err(Error::MissingParams);
    }
    if p.value == -1 {
        Ok(MembershipChange::Leave)
    } else if p.value == 1 {
        Ok(MembershipChange::Join)
    } else {
        Err(Error::SomeErrorOccurred)
    }
}

/// The membership row a join adds.
pub fn new_membership_row(
    p: &JoinOrUnjoinSub,
    id: Uuid,
    created_at: NaiveDateTime,
    updated_at: NaiveDateTime,
) -> (row: user_joined_subs::Model)
    ensures
        row.id == id,
        row.user_sov_id@ == p.user_sov_id@,
        row.sub_sov_id@ == p.sub_sov_id@,
        row.created_at == created_at,
        row.updated_at == updated_at,
{
    user_joined_subs::Model {
        id,
        user_sov_id: p.user_sov_id.clone(),
        sub_sov_id: p.sub_sov_id.clone(),
        created_at,
        updated_at,
    }
}

/// The membership row of a join, with a fresh id and the current time.
pub fn create_membership_row(p: &JoinOrUnjoinSub) -> (row: user_joined_subs::Model)
    ensures
        row.user_sov_id@ == p.user_sov_id@,
        row.sub_sov_id@ == p.sub_sov_id@,
{
    let id = new_row_id();
    let created_at = utc_now();
    let updated_at = utc_now();
    new_membership_row(p, id, created_at, updated_at)
}

/// A membership change whose database step failed is refused with
/// `SomeErrorOccurred`.
pub fn membership_answer(database_ok: bool) -> (r: Result<(), Error>)
    ensures
        database_ok <==> r is Ok,
        r matches Err(e) ==> e == Error::SomeErrorOccurred,
{
    if database_ok {
        Ok(())
    } else {
        Err(Error::SomeErrorOccurred)
    }
}

// ---------------------------------------------------------------------------
// Stored votes

/// The row that stores a user's new vote on a post.
pub fn new_vote_row(
    p: &LikeOrDislikePost,
    value: i32,
    id: Uuid,
    created_at: NaiveDateTime,
    updated_at: NaiveDateTime,
) -> (row: user_liked_posts::Model)
    ensures
        row.id == id,
        row.user_sov_id@ == p.user_sov_id@,
        row.post_sov_id@ == p.post_sov_id@,
        row.value == value,
        row.created_at == created_at,
        row.updated_at == updated_at,
{
    user_liked_posts::Model {
        id,
        user_sov_id: p.user_sov_id.clone(),
        post_sov_id: p.post_sov_id.clone(),
        value,
        created_at,
        updated_at,
    }
}

/// The row of a new stored vote, with a fresh id and the current time.
pub fn create_vote_row(p: &LikeOrDislikePost, value: i32) -> (row: user_liked_posts::Model)
    ensures
        row.user_sov_id@ == p.user_sov_id@,
        row.post_sov_id@ == p.post_sov_id@,
        row.value == value,
{
    let id = new_row_id();
    let created_at = utc_now();
    let updated_at = utc_now();
    new_vote_row(p, value, id, created_at, updated_at)
}

// ---------------------------------------------------------------------------
// Comments

/// The row of a new comment: it starts with one up vote.
pub fn new_comment_row(p: &AddCommentPayload, id: Uuid) -> (row: comments::Model)
    ensures
        row.id == id,
        row.user_sov_id@ == p.user_sov_id@,
        row.post_sov_id@ == p.post_sov_id@,
        row.content@ == p.content@,
        row.upvote == 1,
        row.downvote == 0,
        row.score == 1,
{
    comments::Model {
        id,
        user_sov_id: p.user_sov_id.clone(),
        post_sov_id: p.post_sov_id.clone(),
        content: p.content.clone(),
        upvote: 1,
        downvote: 0,
        score: 1,
    }
}

/// Plans a comment: refused with `MissingParams` exactly when a field is
/// empty, else the comment's row with a fresh id.
pub fn plan_add_comment(p: &AddCommentPayload) -> (r: Result<comments::Model, Error>)
    ensures
        p.lacks_params() <==> r is Err,
        r matches Err(e) ==> e == Error::MissingParams,
        r matches Ok(row) ==> {
            &&& row.user_sov_id@ == p.user_sov_id@
            &&& row.post_sov_id@ == p.post_sov_id@
            &&& row.content@ == p.content@
            &&& row.upvote == 1 && row.downvote == 0 && row.score == 1
        },
{
    if p.missing_params() {
        return Err(Error::MissingParams);
    }
    let id = new_row_id();
    Ok(new_comment_row(p, id))
}

/// A comment whose insert failed is refused with `DBInsertError`.
pub fn comment_answer(insert_ok: bool) -> (r: Result<(), Error>)
    ensures
        insert_ok <==> r is Ok,
        r matches Err(e) ==> e == Error::DBInsertError,
{
    if insert_ok {
        Ok(())
    } else {
        Err(Error::DBInsertError)
    }
}

// ---------------------------------------------------------------------------
// Listing queries

/// The rows of a listing query, or `DBFetchError` when the query failed
/// (`None`).
pub fn listing_answer<T>(rows: Option<Vec<T>>) -> (r: Result<Vec<T>, Error>)
    ensures
        rows is Some <==> r is Ok,
        r matches Ok(v) ==> rows == Some(v),
        r matches Err(e) ==> e == Error::DBFetchError,
{
    match rows {
        Some(v) => Ok(v),
        None => Err(Error::DBFetchError),
    }
}

/// A user's posts or comments are refused with `MissingParams` exactly
/// when the user is not named.
pub fn check_user_listing(p: &GetUserPostsOrCommentsPayload) -> (r: Result<(), Error>)
    ensures
        p.lacks_params() <==> r is Err,
        r matches Err(e) ==> e == Error::MissingParams,
{
    if p.missing_params() { Err(Error::MissingParams) } else { Ok(()) }
}

/// A subreddit's posts are refused with `MissingParams` exactly when the
/// subreddit is not named.
pub fn check_subreddit_listing(p: &GetPostsForSubreddit) -> (r: Result<(), Error>)
    ensures
        p.lacks_params() <==> r is Err,
        r matches Err(e) ==> e == Error::MissingParams,
{
    if p.missing_params() { Err(Error::MissingParams) } else { Ok(()) }
}

/// A post's comments are refused with `MissingParams` exactly when the
/// post is not named.
pub fn check_comment_listing(p: &GetCommentsForPosts) -> (r: Result<(), Error>)
    ensures
        p.lacks_params() <==> r is Err,
        r matches Err(e) ==> e == Error::MissingParams,
{
    if p.missing_params() { Err(Error::MissingParams) } else { Ok(()) }
}

/// A user's moderated subreddits are refused with `MissingParams` exactly
/// when the user is not named.
pub fn check_user_subs(user_sov_id: &str) -> (r: Result<(), Error>)
    ensures
        (user_sov_id@.len() == 0) <==> r is Err,
        r matches Err(e) ==> e == Error::MissingParams,
{
    if user_sov_id.is_empty() { Err(Error::MissingParams) } else { Ok(()) }
}

// ---------------------------------------------------------------------------
// Feed and search

/// The feed query: the posts of the subreddits a user (`$1`) joined, with
/// subreddit and author, newest first.
pub const USER_FEED_SQL: &'static str = r#"SELECT 
    p.post_sov_id,
    p.title,
    p.content,
    p.flair,
    p.upvote,
    p.downvote,
    p.score,
    s.subname,
    s.subdescription,
    u.username AS post_author,
    p.user_sov_id AS author_sov_id
FROM posts p
INNER JOIN subreddit s ON p.sub_sov_id = s.sub_sov_id
INNER JOIN users u ON p.user_sov_id = u.sov_id
INNER JOIN user_joined_subs ujs ON s.sub_sov_id = ujs.sub_sov_id
WHERE ujs.user_sov_id = $1
ORDER BY p.created_time DESC"#;

/// A feed request is refused with `MissingParams` exactly when the user is
/// not named; otherwise it runs the feed query.
pub fn plan_user_feed(p: &UserFeedPayload) -> (r: Result<&'static str, Error>)
    ensures
        p.lacks_params() <==> r is Err,
        r matches Err(e) ==> e == Error::MissingParams,
        r matches Ok(sql) ==> sql@ == USER_FEED_SQL@,
{
    if p.missing_params() { Err(Error::MissingParams) } else { Ok(USER_FEED_SQL) }
}

/// A failed feed query is refused with `ErrorWhileFetchingUserFeed`.
pub fn feed_answer<T>(rows: Option<Vec<T>>) -> (r: Result<Vec<T>, Error>)
    ensures
        rows is Some <==> r is Ok,
        r matches Ok(v) ==> rows == Some(v),
        r matches Err(e) ==> e == Error::ErrorWhileFetchingUserFeed,
{
    match rows {
        Some(v) => Ok(v),
        None => Err(Error::ErrorWhileFetchingUserFeed),
    }
}

/// The escape character of the search pattern; it is also the default
/// escape character of PostgreSQL's `LIKE` and `ILIKE`.
pub const LIKE_ESCAPE: char = '\\';

/// Whether a character means something in a `LIKE` pattern: the two
/// wildcards and the escape character.
pub open spec fn is_like_special(c: char) -> bool {
    c == '%' || c == '_' || c == '\\'
}

/// A character as it is written in a `LIKE` pattern to stand for itself.
pub open spec fn like_escaped_char(c: char) -> Seq<char> {
    if is_like_special(c) { seq!['\\', c] } else { seq![c] }
}

/// A text written so that a `LIKE` pattern reads each of its characters
/// literally.
pub open spec fn like_escaped(q: Seq<char>) -> Seq<char>
    decreases q.len(),
{
    if q.len() == 0 {
        Seq::empty()
    } else {
        like_escaped_char(q[0]) + like_escaped(q.drop_first())
    }
}

/// How a `LIKE` pattern made of literal characters only reads: an escaped
/// character stands for itself, as does any other character but a
/// wildcard. `None` when the pattern holds an unescaped wildcard or ends in
/// a lone escape character.
pub open spec fn like_literal(p: Seq<char>) -> Option<Seq<char>>
    decreases p.len(),
{
    if p.len() == 0 {
        Some(Seq::empty())
    } else if p[0] == '\\' {
        if p.len() >= 2 {
            match like_literal(p.drop_first().drop_first()) {
                Some(rest) => Some(seq![p[1]] + rest),
                None => None,
            }
        } else {
            None
        }
    } else if p[0] == '%' || p[0] == '_' {
        None
    } else {
        match like_literal(p.drop_first()) {
            Some(rest) => Some(seq![p[0]] + rest),
            None => None,
        }
    }
}

/// The pattern that matches names containing the query: any text, the
/// query read literally, any text.
pub open spec fn contains_pattern(query: Seq<char>) -> Seq<char> {
    "%"@ + like_escaped(query) + "%"@
}

/// Escaping a text and reading it back as a `LIKE` pattern gives the text
/// itself: the pattern's wildcards are only the ones around the query.
pub proof fn lemma_like_escaped_reads_back(q: Seq<char>)
    ensures
        like_literal(like_escaped(q)) == Some(q),
    decreases q.len(),
{
    if q.len() > 0 {
        lemma_like_escaped_reads_back(q.drop_first());
        let e = like_escaped(q);
        let rest = like_escaped(q.drop_first());
        if is_like_special(q[0]) {
            assert(e.drop_first().drop_first() =~= rest);
        } else {
            assert(e.drop_first() =~= rest);
        }
        assert(seq![q[0]] + q.drop_first() =~= q);
    }
}

proof fn lemma_like_escaped_push(q: Seq<char>, c: char)
    ensures
        like_escaped(q.push(c)) =~= like_escaped(q) + like_escaped_char(c),
    decreases q.len(),
{
    if q.len() == 0 {
        assert(q.push(c).drop_first() =~= Seq::<char>::empty());
        assert(like_escaped(q.push(c)) == like_escaped_char(c) + like_escaped(Seq::<char>::empty()));
        assert(like_escaped(q) =~= Seq::<char>::empty());
    } else {
        assert(q.push(c).drop_first() =~= q.drop_first().push(c));
        assert(q.push(c)[0] == q[0]);
        lemma_like_escaped_push(q.drop_first(), c);
        assert(like_escaped(q.push(c)) == like_escaped_char(q[0]) + like_escaped(q.drop_first().push(c)));
        assert(like_escaped(q) == like_escaped_char(q[0]) + like_escaped(q.drop_first()));
    }
}

/// Whether `pattern` finds the names that contain `query`: an unescaped
/// `%` (any text), then text that reads literally as the query, then `%`.
pub open spec fn is_contains_pattern_of(pattern: Seq<char>, query: Seq<char>) -> bool {
    &&& pattern.len() >= 2
    &&& pattern[0] == '%'
    &&& pattern.last() == '%'
    &&& like_literal(pattern.subrange(1, pattern.len() - 1)) == Some(query)
}

/// The search pattern of any query begins and ends with a wildcard, and
/// between them reads literally as the query: it finds exactly the names
/// that contain the query anywhere.
pub proof fn lemma_contains_pattern_finds_the_query(query: Seq<char>)
    ensures
        is_contains_pattern_of(contains_pattern(query), query),
{
    lemma_like_escaped_reads_back(query);
    reveal_strlit("%");
    let p = contains_pattern(query);
    assert(p.subrange(1, p.len() - 1) =~= like_escaped(query));
}

/// A search is refused with `MissingParams` exactly when the query is
/// empty. Otherwise it gives the pattern, to be matched with `ILIKE` (case
/// not considered) and `LIKE_ESCAPE` as escape character, that finds the
/// subreddit names containing the query: the query's wildcards and escape
/// characters are escaped, so each character of it stands for itself.
pub fn plan_subreddit_search(p: &SearchSubredditsPayload) -> (r: Result<String, Error>)
    ensures
        p.lacks_params() <==> r is Err,
        r matches Err(e) ==> e == Error::MissingParams,
        r matches Ok(pattern) ==> pattern@ == contains_pattern(p.query@),
        r matches Ok(pattern) ==> is_contains_pattern_of(pattern@, p.query@),
{
    proof {
        lemma_contains_pattern_finds_the_query(p.query@);
    }
    if p.missing_params() {
        return Err(Error::MissingParams);
    }
    let mut pattern = owned("%");
    let ghost q = p.query@;
    for c in it: p.query.as_str().chars()
        invariant
            q == p.query@,
            it.seq() == q,
            pattern@ == "%"@ + like_escaped(q.take(it.index() as int)),
    {
        proof {
            assert(q.take(it.index() + 1) =~= q.take(it.index() as int).push(c));
            lemma_like_escaped_push(q.take(it.index() as int), c);
        }
        if c == '%' || c == '_' || c == LIKE_ESCAPE {
            push_char(&mut pattern, LIKE_ESCAPE);
        }
        push_char(&mut pattern, c);
    }
    proof {
        assert(q.take(q.len() as int) =~= q);
    }
    pattern.append("%");
    Ok(pattern)
}

} // verus!
