//! Shapes of the like endpoints.
use vstd::prelude::*;
use crate::content::usizedb;
use crate::model::like::LikeStatusFlag;

verus! {

#[derive(Debug, Clone, Copy, PartialEq, Eq, Structural)]
pub struct GetLikeStatusQuery {
    pub flag: LikeStatusFlag,
    pub flag_ref_id: usizedb,
    pub created_by_id: usizedb,
}

#[derive(Debug, Clone, Copy, PartialEq, Eq, Structural)]
pub enum LikeAction {
    Like,
    Dislike,
    UnknownLike,
}

#[derive(Debug, Clone, Copy, PartialEq, Eq, Structural)]
pub struct LikeActionBody {
    pub action: LikeAction,
    pub flag: LikeStatusFlag,
}

} // verus!
