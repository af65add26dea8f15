//! The client behind a request: a logged-in user or a guest.
use vstd::prelude::*;
use crate::model::user::UserInfo;

verus! {

pub struct RequestClient {
    user: Option<UserInfo>,
}

impl View for RequestClient {
    type V = Option<UserInfo>;

    closed spec fn view(&self) -> Option<UserInfo> {
        self.user
    }
}

impl RequestClient {
    /// The client of a request that carried `user`'s authorization, or a guest's.
    pub fn new(user: Option<UserInfo>) -> (r: Self)
        ensures
            r@ == user,
    {
        RequestClient { user }
    }

    /// The logged-in user; only for a client that is logged in.
    pub fn get_user_unwrap(&self) -> (r: &UserInfo)
        requires
            self@ is Some,
        ensures
            *r == self@->0,
    {
        self.user.as_ref().unwrap()
    }

    pub fn get_user(&self) -> (r: Option<&UserInfo>)
        ensures
            self@ is None ==> r is None,
            self@ is Some ==> (r is Some && *r->0 == self@->0),
    {
        self.user.as_ref()
    }

    pub fn is_logined(&self) -> (r: bool)
        ensures
            r == self@ is Some,
    {
        self.user.is_some()
    }
}

} // verus!
