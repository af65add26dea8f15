//! Shape of the server information endpoint.
use vstd::prelude::*;
use crate::content::usizedb;

verus! {

#[derive(Debug, Clone, Copy, PartialEq, Eq, Structural)]
pub struct ServerInfo {
    pub editable_seconds: usizedb,
    pub open_register: bool,
    pub custom_post_cover_supported: bool,
    pub auth_active_days: usizedb,
}

} // verus!
