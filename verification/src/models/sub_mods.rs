//! A row of the `sub_mods` table: a moderator of a subreddit.

use vstd::prelude::*;
use chrono::NaiveDateTime;

verus! {

pub struct Model {
    pub sub_sov_id: String,
    pub user_sov_id: String,
    pub subname: String,
    pub created_at: NaiveDateTime,
    pub updated_at: NaiveDateTime,
}

} // verus!
