//! A row of the `subreddit` table.

use vstd::prelude::*;

verus! {

pub struct Model {
    pub sub_sov_id: String,
    pub subname: String,
    pub sub_description: String,
}

} // verus!
