//! Shapes of the object storage endpoints.
use vstd::prelude::*;
use crate::model::object::ObjectFlag;

verus! {

/// What a presigned upload is for.
#[derive(Debug, Clone, Copy, PartialEq, Eq, Structural)]
pub enum SignedFlag {
    UserAvatar,
    PostCover,
    CategoryCover,
}

#[derive(Debug, Clone)]
pub struct GetPresignedUrlQuery {
    pub signed_flag: SignedFlag,
    pub filename: String,
}

#[derive(Debug, Clone)]
pub struct GetPresignedUrlResult {
    pub object_url: String,
    pub presigned_url: String,
}

/// The object kind that an upload of kind `f` is stored as.
pub open spec fn object_flag_of(f: SignedFlag) -> ObjectFlag {
    match f {
        SignedFlag::UserAvatar => ObjectFlag::UserAvatar,
        SignedFlag::PostCover => ObjectFlag::PostCover,
        SignedFlag::CategoryCover => ObjectFlag::CategoryCover,
    }
}

impl From<SignedFlag> for ObjectFlag {
    fn from(f: SignedFlag) -> (r: ObjectFlag)
        ensures
            r == object_flag_of(f),
    {
        match f {
            SignedFlag::UserAvatar => ObjectFlag::UserAvatar,
            SignedFlag::PostCover => ObjectFlag::PostCover,
            SignedFlag::CategoryCover => ObjectFlag::CategoryCover,
        }
    }
}

impl vstd::std_specs::convert::FromSpecImpl<SignedFlag> for ObjectFlag {
    open spec fn obeys_from_spec() -> bool {
        true
    }

    open spec fn from_spec(f: SignedFlag) -> ObjectFlag {
        object_flag_of(f)
    }
}

} // verus!
