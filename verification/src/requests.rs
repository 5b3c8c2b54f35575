//! Request bodies of the database service, and which of them lack a
//! required parameter.

use vstd::prelude::*;

verus! {

/// A rollup record to store: its schema name and the record as JSON text.
pub struct CreateAndSaveModel {
    pub schema_type: String,
    pub data: String,
}

impl CreateAndSaveModel {
    pub open spec fn lacks_params(&self) -> bool {
        self.schema_type@.len() == 0 || self.data@.len() == 0
    }

    /// True when the schema or the data is empty.
    pub fn missing_params(&self) -> (r: bool)
        ensures
            r == self.lacks_params(),
    {
        self.schema_type.as_str().is_empty() || self.data.as_str().is_empty()
    }
}

/// A user joins (`value` 1) or leaves (`value` -1) a subreddit.
pub struct JoinOrUnjoinSub {
    pub user_sov_id: String,
    pub sub_sov_id: String,
    pub value: i32,
}

impl JoinOrUnjoinSub {
    pub open spec fn lacks_params(&self) -> bool {
        self.user_sov_id@.len() == 0 || self.sub_sov_id@.len() == 0
    }

    /// True when the user or the subreddit is not named.
    pub fn missing_params(&self) -> (r: bool)
        ensures
            r == self.lacks_params(),
    {
        self.user_sov_id.as_str().is_empty() || self.sub_sov_id.as_str().is_empty()
    }
}

/// A comment on a post.
pub struct AddCommentPayload {
    pub user_sov_id: String,
    pub sub_sov_id: String,
    pub post_sov_id: String,
    pub content: String,
}

impl AddCommentPayload {
    pub open spec fn lacks_params(&self) -> bool {
        ||| self.content@.len() == 0
        ||| self.sub_sov_id@.len() == 0
        ||| self.post_sov_id@.len() == 0
        ||| self.user_sov_id@.len() == 0
    }

    /// True when any of the four fields is empty.
    pub fn missing_params(&self) -> (r: bool)
        ensures
            r == self.lacks_params(),
    {
        self.content.as_str().is_empty() || self.sub_sov_id.as_str().is_empty()
            || self.post_sov_id.as_str().is_empty() || self.user_sov_id.as_str().is_empty()
    }
}

/// A user's vote on a post: `value` is the new vote (1 up, -1 down, 0 none)
/// and `prev_value` the vote it replaces.
pub struct LikeOrDislikePost {
    pub post_sov_id: String,
    pub user_sov_id: String,
    pub value: i32,
    pub prev_value: i32,
}

impl LikeOrDislikePost {
    pub open spec fn lacks_params(&self) -> bool {
        self.post_sov_id@.len() == 0 || self.user_sov_id@.len() == 0
    }

    /// True when the post or the user is not named.
    pub fn missing_params(&self) -> (r: bool)
        ensures
            r == self.lacks_params(),
    {
        self.post_sov_id.as_str().is_empty() || self.user_sov_id.as_str().is_empty()
    }
}

/// A user's vote on a comment.
pub struct LikeOrDislikeComment {
    pub comment_sov_id: String,
    pub user_sov_id: String,
    pub value: i32,
    pub prev_value: i32,
}

/// Names the user whose posts or comments are asked for.
pub struct GetUserPostsOrCommentsPayload {
    pub user_sov_id: String,
}

impl GetUserPostsOrCommentsPayload {
    pub open spec fn lacks_params(&self) -> bool {
        self.user_sov_id@.len() == 0
    }

    pub fn missing_params(&self) -> (r: bool)
        ensures
            r == self.lacks_params(),
    {
        self.user_sov_id.as_str().is_empty()
    }
}

/// Names the subreddit whose posts are asked for.
pub struct GetPostsForSubreddit {
    pub sub_sov_id: String,
}

impl GetPostsForSubreddit {
    pub open spec fn lacks_params(&self) -> bool {
        self.sub_sov_id@.len() == 0
    }

    pub fn missing_params(&self) -> (r: bool)
        ensures
            r == self.lacks_params(),
    {
        self.sub_sov_id.as_str().is_empty()
    }
}

/// Names the post whose comments are asked for.
pub struct GetCommentsForPosts {
    pub post_sov_id: String,
}

impl GetCommentsForPosts {
    pub open spec fn lacks_params(&self) -> bool {
        self.post_sov_id@.len() == 0
    }

    pub fn missing_params(&self) -> (r: bool)
        ensures
            r == self.lacks_params(),
    {
        self.post_sov_id.as_str().is_empty()
    }
}

/// Names the user whose feed is asked for.
pub struct UserFeedPayload {
    pub user_sov_id: String,
}

impl UserFeedPayload {
    pub open spec fn lacks_params(&self) -> bool {
        self.user_sov_id@.len() == 0
    }

    pub fn missing_params(&self) -> (r: bool)
        ensures
            r == self.lacks_params(),
    {
        self.user_sov_id.as_str().is_empty()
    }
}

/// A text to look for in subreddit names.
pub struct SearchSubredditsPayload {
    pub query: String,
}

impl SearchSubredditsPayload {
    pub open spec fn lacks_params(&self) -> bool {
        self.query@.len() == 0
    }

    pub fn missing_params(&self) -> (r: bool)
        ensures
            r == self.lacks_params(),
    {
        self.query.as_str().is_empty()
    }
}

} // verus!
