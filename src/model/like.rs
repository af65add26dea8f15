//! Likes and dislikes of posts and comments.
use vstd::prelude::*;
use crate::content::usizedb;

verus! {

#[derive(Debug, Clone, Copy, PartialEq, Eq, Structural)]
pub struct LikeStatus {
    pub flag: LikeStatusFlag,
    pub flag_ref_id: usizedb,
    pub created_by_id: usizedb,
    pub created_at: usizedb,
    pub is_like: bool,
}

/// What a like refers to.
#[derive(Debug, Clone, Copy, PartialEq, Eq, Structural, Hash)]
pub enum LikeStatusFlag {
    TargetPost,
    TargetComment,
}

} // verus!
