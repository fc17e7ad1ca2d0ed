use vstd::prelude::*;

use crate::sync::PostExtends;

verus! {

/// A 64-bit id as the HTTP layer carries it: JavaScript clients cannot hold
/// the full integer range, so the edge renders it as a string.
#[derive(Clone, Copy, Debug, PartialEq, Eq, Structural)]
pub struct BigInt(pub i64);

/// Request body for creating a post.
pub struct AddPostDTO {
    pub content: String,
}

/// Response body for a created post or comment.
pub struct AddPostResultDTO {
    pub id: String,
}

/// Request body for deleting a post.
pub struct DelPostDTO {
    pub id: BigInt,
}

/// Query for toggling a reaction on a post.
pub struct LikePostDTO {
    pub id: i64,
}

/// Query for reading a single post.
pub struct GetPostDTO {
    pub id: i64,
}

/// Query or body naming a result page.
pub struct GetPageDTO {
    pub page: i64,
}

/// Response body for a listing: the page, whether one follows, and the
/// synchronized records.
pub struct GetPostsResultDTO {
    pub page: i64,
    pub next: bool,
    pub list: Vec<PostExtends>,
}

/// Request body for commenting on a post.
pub struct CommentPostDTO {
    pub content: String,
    pub origin_id: String,
}

} // verus!
