//! Shapes of the comment endpoints.
use vstd::prelude::*;
use crate::content::usizedb;
use crate::model::comment::{CommentStatus, GetCommentsSort};

verus! {

#[derive(Debug, Clone, Copy, PartialEq, Eq, Structural)]
pub struct GetCommentsQuery {
    pub post_id: usizedb,
    pub parent_id: usizedb,
    pub index: usizedb,
    pub limit: usizedb,
    pub sort: GetCommentsSort,
    pub desc: bool,
    pub extended: bool,
    pub top_order_enable: bool,
}

#[derive(Debug, Clone, Copy, PartialEq, Eq, Structural)]
pub struct GetCommentLikeStatusQuery {
    pub comment_id: usizedb,
    pub user_id: usizedb,
}

#[derive(Debug, Clone, Copy, PartialEq, Eq, Structural)]
pub struct SetStatusBody {
    pub status: CommentStatus,
}

impl GetCommentsQuery {
    /// `top_order_enable` when the request leaves it out.
    pub fn enable() -> (r: bool)
        ensures
            r == true,
    {
        true
    }
}

} // verus!
