//! Error codes reported to API clients.
use vstd::prelude::*;

verus! {

/// An error code; [`DetailErrorCode::code`] gives its number on the wire.
#[derive(Debug, Clone, Copy, PartialEq, Eq, Structural)]
pub enum DetailErrorCode {
    InternalError,
    UnsupportedApi,
    IpAddressNotFound,
    TooManyRequests,
    FetchLimit,
    GetVerificationError,
    VerificationFailed,
    VerificationNotFound,
    LoginRequired,
    NoLoginRequired,
    NoPermission,
    AuthorizationRevertFailed,
    AuthorizationRequiredInUpdate,
    CreateUserFailed,
    UsernameAlreadyContain,
    UpdateUserFailed,
    UsernameNotFound,
    UserNotFound,
    PasswordNotMatch,
    PostNotFound,
    TagsExceedMaximum,
    CategoryNotFound,
    CategoryAlreadyContain,
    GroupAlreadyContain,
    GroupNotFound,
    SaveFileFailed,
    StaticFileNotFound,
    CommentNotFound,
    SamePostCommentRequired,
    ReplyCommentRequired,
    SameParentCommentRequired,
    ReplyCommentMissing,
    IllegalText,
    EmailAlreadyContain,
    TooManyTags,
    UneditableTime,
    BannedStatus,
    CategoryArchived,
    CategoryStopped,
    PostArchived,
}

/// The number of each code: codes come in blocks of a hundred per area,
/// numbered on from the block's first.
pub open spec fn code_number(c: DetailErrorCode) -> u16 {
    match c {
        DetailErrorCode::InternalError => 10000,
        DetailErrorCode::UnsupportedApi => 10001,
        DetailErrorCode::IpAddressNotFound => 10002,
        DetailErrorCode::TooManyRequests => 10003,
        DetailErrorCode::FetchLimit => 10004,
        DetailErrorCode::GetVerificationError => 10100,
        DetailErrorCode::VerificationFailed => 10101,
        DetailErrorCode::VerificationNotFound => 10102,
        DetailErrorCode::LoginRequired => 10200,
        DetailErrorCode::NoLoginRequired => 10201,
        DetailErrorCode::NoPermission => 10202,
        DetailErrorCode::AuthorizationRevertFailed => 10203,
        DetailErrorCode::AuthorizationRequiredInUpdate => 10204,
        DetailErrorCode::CreateUserFailed => 10300,
        DetailErrorCode::UsernameAlreadyContain => 10301,
        DetailErrorCode::UpdateUserFailed => 10302,
        DetailErrorCode::UsernameNotFound => 10303,
        DetailErrorCode::UserNotFound => 10304,
        DetailErrorCode::PasswordNotMatch => 10305,
        DetailErrorCode::PostNotFound => 10400,
        DetailErrorCode::TagsExceedMaximum => 10401,
        DetailErrorCode::CategoryNotFound => 10500,
        DetailErrorCode::CategoryAlreadyContain => 10501,
        DetailErrorCode::GroupAlreadyContain => 10600,
        DetailErrorCode::GroupNotFound => 10601,
        DetailErrorCode::SaveFileFailed => 10700,
        DetailErrorCode::StaticFileNotFound => 10701,
        DetailErrorCode::CommentNotFound => 10800,
        DetailErrorCode::SamePostCommentRequired => 10801,
        DetailErrorCode::ReplyCommentRequired => 10802,
        DetailErrorCode::SameParentCommentRequired => 10803,
        DetailErrorCode::ReplyCommentMissing => 10804,
        DetailErrorCode::IllegalText => 10900,
        DetailErrorCode::EmailAlreadyContain => 10901,
        DetailErrorCode::TooManyTags => 10902,
        DetailErrorCode::UneditableTime => 10903,
        DetailErrorCode::BannedStatus => 11000,
        DetailErrorCode::CategoryArchived => 11001,
        DetailErrorCode::CategoryStopped => 11002,
        DetailErrorCode::PostArchived => 11003,
    }
}

impl DetailErrorCode {
    pub fn code(&self) -> (r: u16)
        ensures
            r == code_number(*self),
    {
        match self {
            DetailErrorCode::InternalError => 10000,
            DetailErrorCode::UnsupportedApi => 10001,
            DetailErrorCode::IpAddressNotFound => 10002,
            DetailErrorCode::TooManyRequests => 10003,
            DetailErrorCode::FetchLimit => 10004,
            DetailErrorCode::GetVerificationError => 10100,
            DetailErrorCode::VerificationFailed => 10101,
            DetailErrorCode::VerificationNotFound => 10102,
            DetailErrorCode::LoginRequired => 10200,
            DetailErrorCode::NoLoginRequired => 10201,
            DetailErrorCode::NoPermission => 10202,
            DetailErrorCode::AuthorizationRevertFailed => 10203,
            DetailErrorCode::AuthorizationRequiredInUpdate => 10204,
            DetailErrorCode::CreateUserFailed => 10300,
            DetailErrorCode::UsernameAlreadyContain => 10301,
            DetailErrorCode::UpdateUserFailed => 10302,
            DetailErrorCode::UsernameNotFound => 10303,
            DetailErrorCode::UserNotFound => 10304,
            DetailErrorCode::PasswordNotMatch => 10305,
            DetailErrorCode::PostNotFound => 10400,
            DetailErrorCode::TagsExceedMaximum => 10401,
            DetailErrorCode::CategoryNotFound => 10500,
            DetailErrorCode::CategoryAlreadyContain => 10501,
            DetailErrorCode::GroupAlreadyContain => 10600,
            DetailErrorCode::GroupNotFound => 10601,
            DetailErrorCode::SaveFileFailed => 10700,
            DetailErrorCode::StaticFileNotFound => 10701,
            DetailErrorCode::CommentNotFound => 10800,
            DetailErrorCode::SamePostCommentRequired => 10801,
            DetailErrorCode::ReplyCommentRequired => 10802,
            DetailErrorCode::SameParentCommentRequired => 10803,
            DetailErrorCode::ReplyCommentMissing => 10804,
            DetailErrorCode::IllegalText => 10900,
            DetailErrorCode::EmailAlreadyContain => 10901,
            DetailErrorCode::TooManyTags => 10902,
            DetailErrorCode::UneditableTime => 10903,
            DetailErrorCode::BannedStatus => 11000,
            DetailErrorCode::CategoryArchived => 11001,
            DetailErrorCode::CategoryStopped => 11002,
            DetailErrorCode::PostArchived => 11003,
        }
    }
}

/// An error code with a message for people.
#[derive(Debug, Clone)]
pub struct DetailError {
    pub code: DetailErrorCode,
    pub msg: String,
}

/// `r` is the error `code` with message `msg`.
pub open spec fn is_detail_error(r: Result<(), DetailError>, code: DetailErrorCode, msg: Seq<char>) -> bool {
    match r {
        Err(e) => e.code == code && e.msg@ == msg,
        Ok(_) => false,
    }
}

impl DetailError {
    /// The error `code` with message `msg`.
    pub fn new(code: DetailErrorCode, msg: &str) -> (r: Self)
        ensures
            r.code == code,
            r.msg@ == msg@,
    {
        DetailError { code, msg: msg.to_owned() }
    }
}

} // verus!
