//! Notifications sent to users.
use vstd::prelude::*;
use crate::content::usizedb;

verus! {

#[derive(Debug, Clone, Copy, PartialEq, Eq, Structural)]
pub struct UserNotificationArguments {
    pub ref_id: usizedb,
    pub target_user_id: usizedb,
    pub n_type: UserNotificationType,
}

#[derive(Debug, Clone, Copy, PartialEq, Eq, Structural)]
pub struct UserNotification {
    pub id: usizedb,
    pub ref_id: usizedb,
    pub target_user_id: usizedb,
    pub created_by_id: usizedb,
    pub created_at: usizedb,
    pub n_type: UserNotificationType,
    pub readed: bool,
}

#[derive(Debug, Clone, Copy, PartialEq, Eq, Structural)]
pub enum UserNotificationType {
    Comment,
    ReplyComment,
    LikePost,
    DislikePost,
    LikeComment,
    DislikeComment,
}

} // verus!
