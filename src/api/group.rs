//! Shapes of the group endpoints.
use vstd::prelude::*;
use crate::api::error::DetailError;
use crate::api::util::{check_title_and_content, title_content_check, VerificationTargetWrapper, Verify};
use crate::content::usizedb;
use crate::model::group::{GetGroupsSort, GroupStatus, GroupToCreateUpdate};

verus! {

#[derive(Debug, Clone, Copy, PartialEq, Eq, Structural)]
pub struct GetGroupsQuery {
    pub index: usizedb,
    pub limit: usizedb,
    pub sort: GetGroupsSort,
    pub desc: bool,
    pub extended: bool,
}

#[derive(Debug, Clone, Copy, PartialEq, Eq, Structural)]
pub struct SetStatusBody {
    pub status: GroupStatus,
}

impl GetGroupsQuery {
    /// `extended` when the request leaves it out.
    pub fn default_extended() -> (r: bool)
        ensures
            r == false,
    {
        false
    }
}

impl Verify<Result<(), DetailError>> for VerificationTargetWrapper<GroupToCreateUpdate> {
    fn verify(&self) -> (r: Result<(), DetailError>)
        ensures
            title_content_check(r, self.target.title@, self.target.description@),
    {
        check_title_and_content(self.target.title.as_str(), self.target.description.as_str())
    }
}

} // verus!
