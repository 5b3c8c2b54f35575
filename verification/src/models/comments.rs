//! A row of the `comments` table.

use vstd::prelude::*;
use uuid::Uuid;

verus! {

pub struct Model {
    pub id: Uuid,
    pub user_sov_id: String,
    pub post_sov_id: String,
    pub content: String,
    pub upvote: i32,
    pub downvote: i32,
    pub score: i32,
}

} // verus!
