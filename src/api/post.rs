//! Shapes of the post endpoints.
use vstd::prelude::*;
use vstd::string::StringExecFns;
use crate::api::error::{is_detail_error, DetailError, DetailErrorCode};
use crate::api::util::{check_title_and_content, title_content_check, VerificationTargetWrapper, Verify};
use crate::content::usizedb;
use crate::legality::{title_ok, LegalityVerification};
use crate::model::post::{PostAlgorithmOrder, PostStatus, PostToCreate, PostToUpdate};

verus! {

/// Most tags a post may carry.
pub const MAX_TAGS: usize = 9;

#[derive(Debug, Clone, Copy, PartialEq, Eq, Structural)]
pub struct SetStatusBody {
    pub status: PostStatus,
}

#[derive(Debug, Clone)]
pub struct GetPostQuery {
    pub sort: PostAlgorithmOrder,
    pub distinct: bool,
    pub category_id: Option<usizedb>,
    pub created_by_id: Option<usizedb>,
    pub time_num: usizedb,
    pub time: String,
    pub index: usizedb,
    pub limit: usizedb,
    pub extended: bool,
    pub top_order_enable: bool,
}

#[derive(Debug, Clone)]
pub struct GetPostCountQuery {
    pub sort: PostAlgorithmOrder,
    pub category_id: Option<usizedb>,
    pub created_by_id: Option<usizedb>,
    pub distinct: bool,
    pub time_num: usizedb,
    pub time: String,
}

impl GetPostQuery {
    /// `time_num` when the request leaves it out.
    pub fn default_time_num() -> (r: usizedb)
        ensures
            r == 1,
    {
        1
    }

    /// `time` when the request leaves it out.
    pub fn default_time() -> (r: String)
        ensures
            r@ == "lifetime"@,
    {
        "lifetime".to_owned()
    }

    /// `top_order_enable` when the request leaves it out.
    pub fn enable() -> (r: bool)
        ensures
            r == true,
    {
        true
    }
}

/// The message for an illegal tag.
pub open spec fn illegal_tag_msg(tag: Seq<char>) -> Seq<char> {
    "The tag `"@ + tag + "` is illegal!"@
}

/// Outcome of checking a post's title, body and tags, in that order; the
/// first illegal tag is the one reported.
pub open spec fn post_check(
    r: Result<(), DetailError>,
    title: Seq<char>,
    content: Seq<char>,
    tags: Seq<String>,
) -> bool {
    if !(title_content_check(Ok(()), title, content)) {
        title_content_check(r, title, content)
    } else if tags.len() > MAX_TAGS {
        is_detail_error(r, DetailErrorCode::TooManyTags, "Too many tags!"@)
    } else if forall|i: int| 0 <= i < tags.len() ==> title_ok(#[trigger] tags[i]@) {
        r is Ok
    } else {
        exists|j: int|
            0 <= j < tags.len() && !title_ok(#[trigger] tags[j]@) && (forall|i: int|
                0 <= i < j ==> title_ok(#[trigger] tags[i]@)) && is_detail_error(
                r,
                DetailErrorCode::IllegalText,
                illegal_tag_msg(tags[j]@),
            )
    }
}

/// Checks a post's title, body and tags.
pub fn check_post(title: &str, content: &str, tags: &Vec<String>) -> (r: Result<(), DetailError>)
    ensures
        post_check(r, title@, content@, tags@),
{
    let head = check_title_and_content(title, content);
    match head {
        Err(e) => {
            return Err(e);
        },
        Ok(()) => {},
    }
    if tags.len() > MAX_TAGS {
        return Err(DetailError::new(DetailErrorCode::TooManyTags, "Too many tags!"));
    }
    let mut i: usize = 0;
    while i < tags.len()
        invariant
            i <= tags@.len(),
            tags@.len() <= MAX_TAGS,
            title_content_check(Ok(()), title@, content@),
            forall|k: int| 0 <= k < i ==> title_ok(#[trigger] tags@[k]@),
        decreases tags@.len() - i,
    {
        if !LegalityVerification::is_tag(tags[i].as_str()) {
            let mut msg = String::from_str("The tag `");
            msg.append(tags[i].as_str());
            msg.append("` is illegal!");
            let e = DetailError { code: DetailErrorCode::IllegalText, msg };
            assert(!title_ok(tags@[i as int]@));
            assert(e.msg@ == illegal_tag_msg(tags@[i as int]@));
            return Err(e);
        }
        i = i + 1;
    }
    Ok(())
}

impl Verify<Result<(), DetailError>> for VerificationTargetWrapper<PostToCreate> {
    fn verify(&self) -> (r: Result<(), DetailError>)
        ensures
            post_check(r, self.target.title@, self.target.content@, self.target.tags@),
    {
        check_post(self.target.title.as_str(), self.target.content.as_str(), &self.target.tags)
    }
}

impl Verify<Result<(), DetailError>> for VerificationTargetWrapper<PostToUpdate> {
    fn verify(&self) -> (r: Result<(), DetailError>)
        ensures
            post_check(r, self.target.title@, self.target.content@, self.target.tags@),
    {
        check_post(self.target.title.as_str(), self.target.content.as_str(), &self.target.tags)
    }
}

} // verus!
