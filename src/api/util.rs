//! Shared API shapes: checked request wrappers, list slices, and the
//! entity tables that extended responses carry along.
use vstd::prelude::*;
use std::collections::HashMap;
use crate::api::error::{is_detail_error, DetailError, DetailErrorCode};
use crate::api::verification::VerificationKey;
use crate::content::usizedb;
use crate::legality::{content_ok, title_ok, LegalityVerification};
use crate::model::category::Category;
use crate::model::comment::CommentInfo;
use crate::model::group::Group;
use crate::model::like::LikeStatus;
use crate::model::post::PostInfo;
use crate::model::user::SafeUserInfo;

verus! {

/// A request body together with the captcha answer that may come with it.
#[derive(Debug, Clone)]
pub struct VerificationTargetWrapper<T> {
    pub target: T,
    pub verification: Option<VerificationKey>,
}

/// Checks a request body before it is acted on.
pub trait Verify<V> {
    fn verify(&self) -> V;
}

/// One page of a listing, and the size of the whole listing.
#[derive(Debug, Clone)]
pub struct ListSlice<T> {
    pub items: Vec<T>,
    pub total: usizedb,
}

impl<T> ListSlice<T> {
    pub fn empty() -> (r: Self)
        ensures
            r.items@.len() == 0,
            r.total == 0,
    {
        ListSlice { items: Vec::new(), total: 0 }
    }
}

/// A listing with, for an extended request, the entities it refers to, by id.
#[derive(Debug)]
pub struct GetDatasExtended<T> {
    pub data: ListSlice<T>,
    pub posts: Option<HashMap<usizedb, PostInfo>>,
    pub comments: Option<HashMap<usizedb, CommentInfo>>,
    pub categories: Option<HashMap<usizedb, Category>>,
    pub groups: Option<HashMap<usizedb, Group>>,
    pub users: Option<HashMap<usizedb, SafeUserInfo>>,
    pub posts_like_status: Option<HashMap<usizedb, LikeStatus>>,
    pub comments_like_status: Option<HashMap<usizedb, LikeStatus>>,
}

impl<T> GetDatasExtended<T> {
    /// An empty listing with no entity tables.
    pub fn empty() -> (r: Self)
        ensures
            r.data.items@.len() == 0,
            r.data.total == 0,
            r.posts is None,
            r.comments is None,
            r.categories is None,
            r.groups is None,
            r.users is None,
            r.posts_like_status is None,
            r.comments_like_status is None,
    {
        GetDatasExtended {
            data: ListSlice::empty(),
            posts: None,
            comments: None,
            categories: None,
            groups: None,
            users: None,
            posts_like_status: None,
            comments_like_status: None,
        }
    }

    /// Replaces the listing and keeps the entity tables.
    pub fn set_data(&mut self, data: ListSlice<T>)
        ensures
            final(self).data == data,
            final(self).posts == old(self).posts,
            final(self).comments == old(self).comments,
            final(self).categories == old(self).categories,
            final(self).groups == old(self).groups,
            final(self).users == old(self).users,
            final(self).posts_like_status == old(self).posts_like_status,
            final(self).comments_like_status == old(self).comments_like_status,
    {
        self.data = data;
    }
}

/// What a user is about to do, for the permission checks.
#[derive(Debug, Clone, Copy, PartialEq, Eq, Structural)]
pub enum WhatToDo {
    WritePost,
    WriteComment,
    ReplyComment,
    LikePost,
    LikeComment,
    NoAction,
}

/// Outcome of checking a title and a body text.
pub open spec fn title_content_check(r: Result<(), DetailError>, title: Seq<char>, content: Seq<char>) -> bool {
    if !title_ok(title) {
        is_detail_error(r, DetailErrorCode::IllegalText, "The title is illegal!"@)
    } else if !content_ok(content) {
        is_detail_error(r, DetailErrorCode::IllegalText, "The content is illegal!"@)
    } else {
        r is Ok
    }
}

/// Checks a title, then a body text.
pub fn check_title_and_content(title: &str, content: &str) -> (r: Result<(), DetailError>)
    ensures
        title_content_check(r, title@, content@),
{
    if !LegalityVerification::is_title(title) {
        return Err(DetailError::new(DetailErrorCode::IllegalText, "The title is illegal!"));
    }
    if !LegalityVerification::is_content(content) {
        return Err(DetailError::new(DetailErrorCode::IllegalText, "The content is illegal!"));
    }
    Ok(())
}

} // verus!
