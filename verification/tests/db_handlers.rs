use chrono::NaiveDate;
use reddit_offchain::db_error::Error;
use reddit_offchain::db_handlers::{
    after_cache_read, after_database_query, check_comment_listing, check_subreddit_listing,
    check_user_listing, check_user_subs, comment_answer, create_membership_row, create_post_rows,
    create_subreddit_rows, create_user_row, feed_answer, listing_answer, membership_answer,
    new_comment_row, new_membership_row, new_post_rows, new_subreddit_rows, new_user_row,
    plan_add_comment, plan_create_and_save_model, plan_fetch, plan_join_or_unjoin,
    plan_subreddit_search, plan_user_feed, AfterCacheRead, AfterDatabaseQuery, MembershipChange,
    ModelSchema, ModelTable, USER_FEED_SQL,
};
use reddit_offchain::requests::{
    AddCommentPayload, CreateAndSaveModel, GetCommentsForPosts, GetPostsForSubreddit,
    GetUserPostsOrCommentsPayload, JoinOrUnjoinSub, SearchSubredditsPayload, UserFeedPayload,
};
use uuid::Uuid;

fn store(schema: &str, data: &str) -> CreateAndSaveModel {
    CreateAndSaveModel { schema_type: schema.to_string(), data: data.to_string() }
}

fn when() -> chrono::NaiveDateTime {
    NaiveDate::from_ymd_opt(2025, 6, 13).unwrap().and_hms_opt(17, 50, 20).unwrap()
}

#[test]
fn store_request_dispatches_on_schema() {
    assert_eq!(plan_create_and_save_model(&store("user", "{}")), Ok(ModelSchema::User));
    assert_eq!(plan_create_and_save_model(&store("subreddit", "{}")), Ok(ModelSchema::Subreddit));
    assert_eq!(plan_create_and_save_model(&store("post", "{}")), Ok(ModelSchema::Post));
    assert_eq!(plan_create_and_save_model(&store("anything", "{}")), Ok(ModelSchema::Post));
    assert_eq!(plan_create_and_save_model(&store("", "{}")), Err(Error::MissingParams));
    assert_eq!(plan_create_and_save_model(&store("user", "")), Err(Error::MissingParams));
}

#[test]
fn user_row_copies_its_fields() {
    let row = new_user_row("0xu".to_string(), "alice".to_string(), when(), when());
    assert_eq!(row.sov_id, "0xu");
    assert_eq!(row.username, "alice");
    assert_eq!(row.created_at, when());
    let row = create_user_row("0xv".to_string(), "bob".to_string());
    assert_eq!(row.sov_id, "0xv");
    assert_eq!(row.username, "bob");
}

#[test]
fn subreddit_rows_make_the_first_mod_a_moderator_and_member() {
    let mods = vec!["0xm1".to_string(), "0xm2".to_string()];
    let id = Uuid::from_u128(7);
    let rows = new_subreddit_rows("0xs".to_string(), "rust".to_string(), "about rust".to_string(), &mods, id, when(), when());
    assert_eq!(rows.subreddit.sub_sov_id, "0xs");
    assert_eq!(rows.subreddit.subname, "rust");
    assert_eq!(rows.subreddit.sub_description, "about rust");
    assert_eq!(rows.moderator.user_sov_id, "0xm1");
    assert_eq!(rows.moderator.sub_sov_id, "0xs");
    assert_eq!(rows.moderator.subname, "rust");
    assert_eq!(rows.membership.id, id);
    assert_eq!(rows.membership.user_sov_id, "0xm1");
    assert_eq!(rows.membership.sub_sov_id, "0xs");
    let rows = create_subreddit_rows("0xt".to_string(), "go".to_string(), "".to_string(), &mods);
    assert_eq!(rows.membership.user_sov_id, "0xm1");
    assert_eq!(rows.moderator.sub_sov_id, "0xt");
}

#[test]
fn post_rows_start_with_the_authors_up_vote() {
    let id = Uuid::from_u128(11);
    let rows = new_post_rows(
        "0xs".to_string(), "0xp".to_string(), "t".to_string(), "c".to_string(), "f".to_string(),
        "0xu".to_string(), id, when(), when(),
    );
    assert_eq!((rows.post.upvote, rows.post.downvote, rows.post.score), (1, 0, 1));
    assert_eq!(rows.post.post_sov_id, "0xp");
    assert_eq!(rows.post.sub_sov_id, "0xs");
    assert_eq!(rows.post.user_sov_id, "0xu");
    assert_eq!(rows.post.title, "t");
    assert_eq!(rows.post.content, "c");
    assert_eq!(rows.post.flair, "f");
    assert_eq!(rows.author_vote.value, 1);
    assert_eq!(rows.author_vote.id, id);
    assert_eq!(rows.author_vote.post_sov_id, "0xp");
    assert_eq!(rows.author_vote.user_sov_id, "0xu");
    let a = create_post_rows("s".into(), "p".into(), "t".into(), "c".into(), "f".into(), "u".into());
    let b = create_post_rows("s".into(), "p".into(), "t".into(), "c".into(), "f".into(), "u".into());
    assert_ne!(a.author_vote.id, b.author_vote.id);
}

#[test]
fn fetch_is_planned_per_schema() {
    let plan = plan_fetch("user", "0xu").ok().unwrap();
    assert_eq!(plan.table, ModelTable::Users);
    assert_eq!(plan.cache_key, "user_0xu");
    assert_eq!(plan_fetch("subreddit", "s").ok().unwrap().table, ModelTable::Subreddits);
    assert_eq!(plan_fetch("post", "p").ok().unwrap().cache_key, "post_p");
    assert_eq!(plan_fetch("comment", "c").err(), Some(Error::UnexpectedError));
}

#[test]
fn fetch_steps() {
    assert_eq!(after_cache_read(true), AfterCacheRead::AnswerFromCache);
    assert_eq!(after_cache_read(false), AfterCacheRead::QueryDatabase);
    assert_eq!(after_database_query(true), Ok(AfterDatabaseQuery::CacheAndAnswer { ttl_secs: 60 }));
    assert_eq!(after_database_query(false), Err(Error::UnexpectedError));
}

fn join(user: &str, sub: &str, value: i32) -> JoinOrUnjoinSub {
    JoinOrUnjoinSub { user_sov_id: user.to_string(), sub_sov_id: sub.to_string(), value }
}

#[test]
fn join_requests() {
    assert_eq!(plan_join_or_unjoin(&join("u", "s", 1)), Ok(MembershipChange::Join));
    assert_eq!(plan_join_or_unjoin(&join("u", "s", -1)), Ok(MembershipChange::Leave));
    assert_eq!(plan_join_or_unjoin(&join("u", "s", 0)), Err(Error::SomeErrorOccurred));
    assert_eq!(plan_join_or_unjoin(&join("", "s", 1)), Err(Error::MissingParams));
    assert_eq!(plan_join_or_unjoin(&join("u", "", 7)), Err(Error::MissingParams));
    assert_eq!(membership_answer(true), Ok(()));
    assert_eq!(membership_answer(false), Err(Error::SomeErrorOccurred));
    let row = new_membership_row(&join("u", "s", 1), Uuid::from_u128(3), when(), when());
    assert_eq!((row.user_sov_id.as_str(), row.sub_sov_id.as_str()), ("u", "s"));
    assert_eq!(row.id, Uuid::from_u128(3));
    let row = create_membership_row(&join("u2", "s2", 1));
    assert_eq!((row.user_sov_id.as_str(), row.sub_sov_id.as_str()), ("u2", "s2"));
}

fn comment(user: &str, sub: &str, post: &str, content: &str) -> AddCommentPayload {
    AddCommentPayload {
        user_sov_id: user.to_string(),
        sub_sov_id: sub.to_string(),
        post_sov_id: post.to_string(),
        content: content.to_string(),
    }
}

#[test]
fn comments() {
    for p in [comment("", "s", "p", "c"), comment("u", "", "p", "c"), comment("u", "s", "", "c"), comment("u", "s", "p", "")] {
        assert_eq!(plan_add_comment(&p).err(), Some(Error::MissingParams));
    }
    let row = plan_add_comment(&comment("u", "s", "p", "nice")).ok().unwrap();
    assert_eq!((row.upvote, row.downvote, row.score), (1, 0, 1));
    assert_eq!(row.content, "nice");
    assert_eq!(row.post_sov_id, "p");
    assert_eq!(row.user_sov_id, "u");
    let row = new_comment_row(&comment("u", "s", "p", "x"), Uuid::from_u128(5));
    assert_eq!(row.id, Uuid::from_u128(5));
    assert_eq!(comment_answer(false), Err(Error::DBInsertError));
    assert_eq!(comment_answer(true), Ok(()));
}

#[test]
fn listings() {
    let user = GetUserPostsOrCommentsPayload { user_sov_id: "".to_string() };
    assert_eq!(check_user_listing(&user), Err(Error::MissingParams));
    let user = GetUserPostsOrCommentsPayload { user_sov_id: "u".to_string() };
    assert_eq!(check_user_listing(&user), Ok(()));
    assert_eq!(check_subreddit_listing(&GetPostsForSubreddit { sub_sov_id: "".to_string() }), Err(Error::MissingParams));
    assert_eq!(check_subreddit_listing(&GetPostsForSubreddit { sub_sov_id: "s".to_string() }), Ok(()));
    assert_eq!(check_comment_listing(&GetCommentsForPosts { post_sov_id: "".to_string() }), Err(Error::MissingParams));
    assert_eq!(check_comment_listing(&GetCommentsForPosts { post_sov_id: "p".to_string() }), Ok(()));
    assert_eq!(check_user_subs(""), Err(Error::MissingParams));
    assert_eq!(check_user_subs("u"), Ok(()));
    assert_eq!(listing_answer(Some(vec![1, 2])), Ok(vec![1, 2]));
    assert_eq!(listing_answer::<u8>(None), Err(Error::DBFetchError));
}

#[test]
fn feed_and_search() {
    assert_eq!(plan_user_feed(&UserFeedPayload { user_sov_id: "".to_string() }), Err(Error::MissingParams));
    assert_eq!(plan_user_feed(&UserFeedPayload { user_sov_id: "u".to_string() }), Ok(USER_FEED_SQL));
    assert!(USER_FEED_SQL.contains("WHERE ujs.user_sov_id = $1"));
    assert_eq!(feed_answer::<u8>(None), Err(Error::ErrorWhileFetchingUserFeed));
    assert_eq!(feed_answer(Some(vec!["x"])), Ok(vec!["x"]));
    assert_eq!(plan_subreddit_search(&SearchSubredditsPayload { query: "ru".to_string() }), Ok("%ru%".to_string()));
    assert_eq!(plan_subreddit_search(&SearchSubredditsPayload { query: "a_c".to_string() }), Ok(r"%a\_c%".to_string()));
    assert_eq!(plan_subreddit_search(&SearchSubredditsPayload { query: "50%".to_string() }), Ok(r"%50\%%".to_string()));
    assert_eq!(plan_subreddit_search(&SearchSubredditsPayload { query: r"x\y".to_string() }), Ok(r"%x\\y%".to_string()));
    assert_eq!(plan_subreddit_search(&SearchSubredditsPayload { query: "Äb".to_string() }), Ok("%Äb%".to_string()));
    assert_eq!(plan_subreddit_search(&SearchSubredditsPayload { query: "".to_string() }), Err(Error::MissingParams));
}

#[test]
fn stored_vote_rows() {
    let p = reddit_offchain::requests::LikeOrDislikePost {
        post_sov_id: "p".to_string(),
        user_sov_id: "u".to_string(),
        value: -1,
        prev_value: 0,
    };
    let row = reddit_offchain::db_handlers::new_vote_row(&p, -1, Uuid::from_u128(2), when(), when());
    assert_eq!((row.post_sov_id.as_str(), row.user_sov_id.as_str(), row.value), ("p", "u", -1));
    assert_eq!(row.id, Uuid::from_u128(2));
    let row = reddit_offchain::db_handlers::create_vote_row(&p, -1);
    assert_eq!(row.value, -1);
}
