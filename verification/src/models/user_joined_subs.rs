//! A row of the `user_joined_subs` table: a user's membership of a subreddit.

use vstd::prelude::*;
use uuid::Uuid;
use chrono::NaiveDateTime;

verus! {

pub struct Model {
    pub id: Uuid,
    pub user_sov_id: String,
    pub sub_sov_id: String,
    pub created_at: NaiveDateTime,
    pub updated_at: NaiveDateTime,
}

} // verus!
