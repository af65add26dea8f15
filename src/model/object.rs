//! Stored objects and what they are attached to.
use vstd::prelude::*;
use crate::content::usizedb;

verus! {

#[derive(Debug, Clone, Copy, PartialEq, Eq, Structural)]
pub enum ObjectFlag {
    Captcha,
    UserAvatar,
    PostCover,
    CategoryCover,
}

#[derive(Debug, Clone)]
pub struct MarkedObject {
    pub key: String,
    pub created_at: usizedb,
    pub flag: ObjectFlag,
    pub flag_ref_id: usizedb,
    pub permanent: bool,
}

} // verus!
