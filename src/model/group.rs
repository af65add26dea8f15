//! User groups and their posting rights.
use vstd::prelude::*;
use crate::content::{usizedb, ContentType};

verus! {

#[derive(Debug, Clone)]
pub struct Group {
    pub id: usizedb,
    pub title: String,
    pub description: String,
    pub description_content_type: ContentType,
    pub status: GroupStatus,
}

#[derive(Debug, Clone)]
pub struct GroupToCreateUpdate {
    pub title: String,
    pub description: String,
    pub description_content_type: ContentType,
    pub status: GroupStatus,
}

#[derive(Debug, Clone, Copy, PartialEq, Eq, Structural)]
pub enum GroupStatus {
    Active,
    OnlyComment,
    Observer,
}

#[derive(Debug, Clone, Copy, PartialEq, Eq, Structural)]
pub enum GetGroupsSort {
    Id,
    Title,
}

} // verus!
