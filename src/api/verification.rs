//! Shapes of the captcha verification endpoints.
use vstd::prelude::*;
use crate::content::usizedb;

verus! {

/// The answer to a captcha, sent along with a request that needs one.
#[derive(Debug, Clone)]
pub struct VerificationKey {
    pub verification_id: usizedb,
    pub secret_key: String,
}

} // verus!
