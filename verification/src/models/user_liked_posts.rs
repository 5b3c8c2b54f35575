//! A row of the `user_liked_posts` table: a user's stored vote on a post.

use vstd::prelude::*;
use uuid::Uuid;
use chrono::NaiveDateTime;

verus! {

pub struct Model {
    pub id: Uuid,
    pub user_sov_id: String,
    pub post_sov_id: String,
    pub value: i32,
    pub created_at: NaiveDateTime,
    pub updated_at: NaiveDateTime,
}

} // verus!
