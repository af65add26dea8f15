//! Comments on posts, and replies to comments.
use vstd::prelude::*;
use crate::content::{usizedb, ContentType};

verus! {

#[derive(Debug, Clone)]
pub struct CommentInfo {
    pub id: usizedb,
    pub parent_id: usizedb,
    pub created_at: usizedb,
    pub created_by_id: usizedb,
    pub last_edit_at: usizedb,
    pub last_edit_by_id: usizedb,
    pub content: String,
    pub content_type: ContentType,
    pub post_id: usizedb,
    pub category_id: usizedb,
    pub reply_user_id: usizedb,
    pub reply_comment_id: usizedb,
    pub likes: usizedb,
    pub dislikes: usizedb,
    pub status: CommentStatus,
    pub total_comment: usizedb,
    pub last_comment_at: usizedb,
    pub last_comment_by_id: usizedb,
    pub top_index: usizedb,
}

#[derive(Debug, Clone, Copy, PartialEq, Eq, Structural)]
pub struct CommentBaseInfo {
    pub id: usizedb,
    pub parent_id: usizedb,
    pub created_at: usizedb,
    pub created_by_id: usizedb,
    pub last_edit_at: usizedb,
    pub last_edit_by_id: usizedb,
    pub content_type: ContentType,
    pub post_id: usizedb,
    pub category_id: usizedb,
    pub reply_user_id: usizedb,
    pub reply_comment_id: usizedb,
    pub likes: usizedb,
    pub dislikes: usizedb,
    pub status: CommentStatus,
    pub total_comment: usizedb,
    pub last_comment_at: usizedb,
    pub last_comment_by_id: usizedb,
    pub top_index: usizedb,
}

#[derive(Debug, Clone, Copy, PartialEq, Eq, Structural)]
pub enum CommentStatus {
    Active,
    Banned,
}

#[derive(Debug, Clone)]
pub struct CommentToCreate {
    pub content: String,
    pub content_type: ContentType,
    pub post_id: usizedb,
    pub category_id: usizedb,
    pub parent_id: usizedb,
    pub top_index: usizedb,
    pub reply_user_id: usizedb,
    pub reply_comment_id: usizedb,
}

#[derive(Debug, Clone)]
pub struct CommentToUpdate {
    pub top_index: usizedb,
    pub content: String,
    pub content_type: ContentType,
}

#[derive(Debug, Clone, Copy, PartialEq, Eq, Structural)]
pub struct CommentLikeStatus {
    pub comment_id: usizedb,
    pub created_by_id: usizedb,
    pub created_at: usizedb,
    pub is_like: bool,
}

#[derive(Debug, Clone, Copy, PartialEq, Eq, Structural)]
pub enum GetCommentsSort {
    Id,
    Likes,
    Dislikes,
    TotalPost,
}

} // verus!
