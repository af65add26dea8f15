//! Shapes of the notification endpoints.
use vstd::prelude::*;
use crate::content::usizedb;

verus! {

#[derive(Debug, Clone, Copy, PartialEq, Eq, Structural)]
pub struct GetUserNotificationsQuery {
    pub index: usizedb,
    pub limit: usizedb,
    pub only_unread: bool,
    pub extended: bool,
}

#[derive(Debug, Clone, Copy, PartialEq, Eq, Structural)]
pub struct SetUserNotificationReadedQuery {
    pub id: usizedb,
    pub readed: bool,
}

} // verus!
