//! The rows the database service keeps, one module per table.

pub mod users;
pub mod subreddit;
pub mod sub_mods;
pub mod posts;
pub mod comments;
pub mod user_joined_subs;
pub mod user_liked_posts;
