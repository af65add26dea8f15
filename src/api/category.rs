//! Shapes of the category endpoints.
use vstd::prelude::*;
use crate::api::error::DetailError;
use crate::api::util::{check_title_and_content, title_content_check, VerificationTargetWrapper, Verify};
use crate::content::usizedb;
use crate::model::category::{CategoryStatus, CategoryToCreate, CategoryToUpdate, GetCategoriesSort};

verus! {

#[derive(Debug, Clone, Copy, PartialEq, Eq, Structural)]
pub struct GetCategoriesQuery {
    pub index: usizedb,
    pub limit: usizedb,
    pub sort: GetCategoriesSort,
    pub desc: bool,
    pub extended: bool,
}

impl GetCategoriesQuery {
    /// `extended` when the request leaves it out.
    pub fn default_extended() -> (r: bool)
        ensures
            r == false,
    {
        false
    }
}

#[derive(Debug, Clone, Copy, PartialEq, Eq, Structural)]
pub struct SetStatusBody {
    pub status: CategoryStatus,
}

impl Verify<Result<(), DetailError>> for VerificationTargetWrapper<CategoryToCreate> {
    fn verify(&self) -> (r: Result<(), DetailError>)
        ensures
            title_content_check(r, self.target.title@, self.target.description@),
    {
        check_title_and_content(self.target.title.as_str(), self.target.description.as_str())
    }
}

impl Verify<Result<(), DetailError>> for VerificationTargetWrapper<CategoryToUpdate> {
    fn verify(&self) -> (r: Result<(), DetailError>)
        ensures
            title_content_check(r, self.target.title@, self.target.description@),
    {
        check_title_and_content(self.target.title.as_str(), self.target.description.as_str())
    }
}

} // verus!
