//! Users, their status and their rank.
use vstd::prelude::*;
use crate::content::usizedb;

verus! {

#[derive(Debug, Clone, Copy, PartialEq, Eq, Structural)]
pub enum UserStatus {
    Active,
    Banned,
    OnlyComment,
    Observer,
}

/// A user's rank, lowest first.
#[derive(Debug, Clone, Copy, PartialEq, Eq, Structural)]
pub enum UserType {
    Guest,
    General,
    Administrator,
}

#[derive(Debug, Clone)]
pub struct UserInfo {
    pub id: usizedb,
    pub email: String,
    pub username: String,
    pub alias: String,
    pub password: String,
    pub group_ids: Vec<usizedb>,
    pub status: UserStatus,
    pub user_type: UserType,
    pub avatar_url: Option<String>,
    pub signature: String,
    pub created_at: usizedb,
    pub total_post: usizedb,
    pub total_comment: usizedb,
}

/// What of a user may be shown to others: no e-mail, no password.
#[derive(Debug, Clone)]
pub struct SafeUserInfo {
    pub id: usizedb,
    pub alias: String,
    pub username: String,
    pub group_ids: Vec<usizedb>,
    pub status: UserStatus,
    pub user_type: UserType,
    pub avatar_url: Option<String>,
    pub signature: String,
    pub created_at: usizedb,
    pub total_post: usizedb,
    pub total_comment: usizedb,
}

#[derive(Debug, Clone)]
pub struct UserToCreate {
    pub email: String,
    pub username: String,
    pub password: String,
    pub alias: String,
}

#[derive(Debug, Clone)]
pub struct UserToUpdate {
    pub email: String,
    pub password: String,
    pub alias: String,
    pub avatar_url: Option<String>,
    pub signature: String,
}

impl UserInfo {
    pub fn is_admin(&self) -> (r: bool)
        ensures
            r == (self.user_type == UserType::Administrator),
    {
        self.user_type == UserType::Administrator
    }
}

/// `u` with the e-mail address and the password left out.
pub open spec fn safe_view(u: UserInfo) -> SafeUserInfo {
    SafeUserInfo {
        id: u.id,
        alias: u.alias,
        username: u.username,
        group_ids: u.group_ids,
        status: u.status,
        user_type: u.user_type,
        avatar_url: u.avatar_url,
        signature: u.signature,
        created_at: u.created_at,
        total_post: u.total_post,
        total_comment: u.total_comment,
    }
}

impl From<UserInfo> for SafeUserInfo {
    fn from(u: UserInfo) -> (r: SafeUserInfo)
        ensures
            r == safe_view(u),
    {
        SafeUserInfo {
            id: u.id,
            alias: u.alias,
            username: u.username,
            group_ids: u.group_ids,
            status: u.status,
            user_type: u.user_type,
            avatar_url: u.avatar_url,
            signature: u.signature,
            created_at: u.created_at,
            total_post: u.total_post,
            total_comment: u.total_comment,
        }
    }
}

impl vstd::std_specs::convert::FromSpecImpl<UserInfo> for SafeUserInfo {
    open spec fn obeys_from_spec() -> bool {
        true
    }

    open spec fn from_spec(u: UserInfo) -> SafeUserInfo {
        safe_view(u)
    }
}

} // verus!
