//! A row of the `posts` table.

use vstd::prelude::*;

verus! {

pub struct Model {
    pub post_sov_id: String,
    pub title: String,
    pub content: String,
    pub sub_sov_id: String,
    pub flair: String,
    pub user_sov_id: String,
    pub upvote: i32,
    pub downvote: i32,
    pub score: i32,
}

} // verus!
