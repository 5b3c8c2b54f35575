//! A row of the `users` table.

use vstd::prelude::*;
use chrono::NaiveDateTime;

verus! {

pub struct Model {
    pub sov_id: String,
    pub username: String,
    pub created_at: NaiveDateTime,
    pub updated_at: NaiveDateTime,
}

} // verus!
