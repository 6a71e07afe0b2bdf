//! Shapes of the post and comment endpoints, and the naming of thumbnails.

use vstd::prelude::*;
use vstd::string::*;
use crate::text::{last_position, rfind_char};

verus! {

/// Which page of posts is asked for.
#[derive(Debug)]
pub struct ListPostsQuery {
    pub limit: Option<i32>,
    pub offset: Option<i32>,
}

/// One post, as a reader sees it.
#[derive(Debug)]
pub struct PostItemResponse {
    pub id: String,
    pub user_id: String,
    pub display_name: String,
    pub avatar_url: Option<String>,
    pub content: String,
    pub image_url: Option<String>,
    pub thumbnail_url: Option<String>,
    pub created_at: String,
    pub like_count: i64,
    pub comment_count: i64,
    pub is_liked: bool,
}

/// A page of posts.
#[derive(Debug)]
pub struct ListPostsResponse {
    pub posts: Vec<PostItemResponse>,
}

/// The confirmation of a new post.
#[derive(Debug)]
pub struct CreatePostResponse {
    pub post: PostItemResponse,
}

/// The confirmation of a deleted post.
#[derive(Debug)]
pub struct DeletePostResponse {
    pub success: bool,
}

/// The state of a like after it was toggled.
#[derive(Debug)]
pub struct LikeResponse {
    pub liked: bool,
    pub like_count: i64,
}

/// One comment, as a reader sees it.
#[derive(Debug)]
pub struct CommentItemResponse {
    pub id: String,
    pub post_id: String,
    pub user_id: String,
    pub display_name: String,
    pub avatar_url: Option<String>,
    pub content: String,
    pub reply_to_user_id: Option<String>,
    pub reply_to_display_name: Option<String>,
    pub created_at: String,
    pub like_count: i64,
    pub is_liked: bool,
}

/// A page of comments.
#[derive(Debug)]
pub struct ListCommentsResponse {
    pub comments: Vec<CommentItemResponse>,
}

/// The confirmation of a new comment.
#[derive(Debug)]
pub struct CreateCommentResponse {
    pub comment: CommentItemResponse,
}

/// Which page of comments is asked for.
#[derive(Debug)]
pub struct ListCommentsQuery {
    pub limit: Option<i32>,
    pub offset: Option<i32>,
}

/// A new comment, possibly in reply to another.
#[derive(Debug)]
pub struct CreateCommentRequest {
    pub content: String,
    pub reply_to_user_id: Option<String>,
}

/// The confirmation of a deleted comment.
#[derive(Debug)]
pub struct DeleteCommentResponse {
    pub success: bool,
}


/// The path of the thumbnail that belongs to an image: `_thumb.jpg` in
/// place of what follows the last dot, or appended where there is no dot.
pub open spec fn thumbnail_path_of(original_path: Seq<char>) -> Seq<char> {
    match last_position(original_path, '.') {
        Some(dot) => original_path.take(dot) + "_thumb.jpg"@,
        None => original_path + "_thumb.jpg"@,
    }
}

/// The path of the thumbnail that belongs to the image at `original_path`.
pub fn get_thumbnail_path(original_path: &str) -> (path: String)
    ensures
        path@ == thumbnail_path_of(original_path@),
{
    match rfind_char(original_path, '.') {
        Some(dot) => {
            proof {
                crate::text::lemma_last_position(original_path@, '.');
            }
            original_path.substring_char(0, dot).to_owned().concat("_thumb.jpg")
        },
        None => original_path.to_owned().concat("_thumb.jpg"),
    }
}

} // verus!
