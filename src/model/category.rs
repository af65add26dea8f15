//! Categories: the sections that posts belong to.
use vstd::prelude::*;
use crate::content::{usizedb, ContentType};
use crate::model::user::UserType;

verus! {

#[derive(Debug, Clone, Copy, PartialEq, Eq, Structural)]
pub enum CategoryStatus {
    Active,
    Archived,
    Stopped,
}

#[derive(Debug, Clone)]
pub struct Category {
    pub id: usizedb,
    pub title: String,
    pub description: Option<String>,
    pub description_content_type: ContentType,
    pub status: CategoryStatus,
    pub read_level: UserType,
    pub write_level: UserType,
    pub comment_level: UserType,
    pub moderator_ids: Vec<usizedb>,
    pub group_ids: Vec<usizedb>,
    pub total_post: usizedb,
    pub cover_url: Option<String>,
}

#[derive(Debug, Clone)]
pub struct CategoryToCreate {
    pub title: String,
    pub description: String,
    pub description_content_type: ContentType,
    pub status: CategoryStatus,
    pub read_level: UserType,
    pub write_level: UserType,
    pub comment_level: UserType,
    pub moderator_ids: Vec<usizedb>,
    pub group_ids: Vec<usizedb>,
    pub cover_url: Option<String>,
}

#[derive(Debug, Clone)]
pub struct CategoryToUpdate {
    pub title: String,
    pub description: String,
    pub description_content_type: ContentType,
    pub status: CategoryStatus,
    pub read_level: UserType,
    pub write_level: UserType,
    pub comment_level: UserType,
    pub moderator_ids: Vec<usizedb>,
    pub group_ids: Vec<usizedb>,
    pub cover_url: Option<String>,
}

#[derive(Debug, Clone, Copy, PartialEq, Eq, Structural)]
pub enum GetCategoriesSort {
    Id,
    Title,
    TotalPost,
}

} // verus!
