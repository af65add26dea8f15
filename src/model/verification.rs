//! Captcha verifications.
use vstd::prelude::*;
use crate::content::usizedb;

verus! {

#[derive(Debug)]
pub struct Verification {
    pub id: usizedb,
    pub created_at: usizedb,
    pub secret: String,
}

#[derive(Debug, Clone)]
pub struct VerificationKeyPicture {
    pub verification_id: usizedb,
    pub secret_key_picture_url: String,
}

} // verus!
