//! Shapes of the user endpoints, and the checks of user input.
use vstd::prelude::*;
use crate::api::error::{is_detail_error, DetailError, DetailErrorCode};
use crate::api::util::VerificationTargetWrapper;
use crate::content::usizedb;
use crate::legality::{email_ok, password_ok, username_ok, LegalityVerification};
use crate::model::user::{UserInfo, UserStatus, UserToCreate, UserToUpdate};

verus! {

#[derive(Debug, Clone)]
pub struct ToDeleteUsers {
    pub ids: Vec<usizedb>,
}

#[derive(Debug, Clone, Copy, PartialEq, Eq, Structural)]
pub struct GetUserById {
    pub id: usizedb,
    pub index: usizedb,
    pub limit: usizedb,
}

#[derive(Debug, Clone, Copy, PartialEq, Eq, Structural)]
pub struct GetUsersQuery {
    pub sort: GetUsersSort,
    pub desc: bool,
    pub index: usizedb,
    pub limit: usizedb,
    pub extended: bool,
}

#[derive(Debug, Clone, Copy, PartialEq, Eq, Structural)]
pub enum GetUsersSort {
    Id,
    Username,
    Alias,
    UserLevel,
}

/// The column a sort order sorts by.
pub open spec fn sort_column(s: GetUsersSort) -> Seq<char> {
    match s {
        GetUsersSort::Id => "id"@,
        GetUsersSort::Username => "username"@,
        GetUsersSort::Alias => "alias"@,
        GetUsersSort::UserLevel => "user_level"@,
    }
}

impl GetUsersSort {
    /// The column this order sorts by.
    pub fn to_string(&self) -> (r: String)
        ensures
            r@ == sort_column(*self),
    {
        match self {
            GetUsersSort::Id => "id".to_owned(),
            GetUsersSort::Username => "username".to_owned(),
            GetUsersSort::Alias => "alias".to_owned(),
            GetUsersSort::UserLevel => "user_level".to_owned(),
        }
    }
}

#[derive(Debug, Clone)]
pub struct ToLoginUser {
    pub username: String,
    pub password: String,
}

#[derive(Debug, Clone)]
pub struct AuthAndUser {
    pub auth: String,
    pub user: UserInfo,
}

#[derive(Debug, Clone)]
pub struct UserAuthQuery {
    pub auth: String,
}

#[derive(Debug, Clone, Copy, PartialEq, Eq, Structural)]
pub struct SetStatusBody {
    pub status: UserStatus,
}

impl GetUsersQuery {
    /// `extended` when the request leaves it out.
    pub fn default_extended() -> (r: bool)
        ensures
            r == false,
    {
        false
    }
}

fn illegal_email() -> (e: DetailError)
    ensures
        e.code == DetailErrorCode::IllegalText,
        e.msg@ == "The email is illegal!"@,
{
    DetailError::new(DetailErrorCode::IllegalText, "The email is illegal!")
}

fn illegal_username() -> (e: DetailError)
    ensures
        e.code == DetailErrorCode::IllegalText,
        e.msg@ == "The username is illegal!"@,
{
    DetailError::new(DetailErrorCode::IllegalText, "The username is illegal!")
}

fn illegal_password() -> (e: DetailError)
    ensures
        e.code == DetailErrorCode::IllegalText,
        e.msg@ == "The password is illegal!"@,
{
    DetailError::new(DetailErrorCode::IllegalText, "The password is illegal!")
}

impl VerificationTargetWrapper<UserToCreate> {
    /// Checks the e-mail address, the user name and the password, in that order.
    pub fn verify(&self) -> (r: Result<(), DetailError>)
        ensures
            !email_ok(self.target.email@) ==> is_detail_error(
                r,
                DetailErrorCode::IllegalText,
                "The email is illegal!"@,
            ),
            email_ok(self.target.email@) && !username_ok(self.target.username@)
                ==> is_detail_error(r, DetailErrorCode::IllegalText, "The username is illegal!"@),
            email_ok(self.target.email@) && username_ok(self.target.username@) && !password_ok(
                self.target.password@,
            ) ==> is_detail_error(r, DetailErrorCode::IllegalText, "The password is illegal!"@),
            email_ok(self.target.email@) && username_ok(self.target.username@) && password_ok(
                self.target.password@,
            ) ==> r is Ok,
    {
        let u = &self.target;
        if !LegalityVerification::is_email(u.email.as_str()) {
            return Err(illegal_email());
        }
        if !LegalityVerification::is_username(u.username.as_str()) {
            return Err(illegal_username());
        }
        if !LegalityVerification::is_password(u.password.as_str()) {
            return Err(illegal_password());
        }
        Ok(())
    }
}

impl VerificationTargetWrapper<UserToUpdate> {
    /// Checks the e-mail address, then the password.
    pub fn verify(&self) -> (r: Result<(), DetailError>)
        ensures
            !email_ok(self.target.email@) ==> is_detail_error(
                r,
                DetailErrorCode::IllegalText,
                "The email is illegal!"@,
            ),
            email_ok(self.target.email@) && !password_ok(self.target.password@) ==> is_detail_error(
                r,
                DetailErrorCode::IllegalText,
                "The password is illegal!"@,
            ),
            email_ok(self.target.email@) && password_ok(self.target.password@) ==> r is Ok,
    {
        let u = &self.target;
        if !LegalityVerification::is_email(u.email.as_str()) {
            return Err(illegal_email());
        }
        if !LegalityVerification::is_password(u.password.as_str()) {
            return Err(illegal_password());
        }
        Ok(())
    }
}

impl VerificationTargetWrapper<ToLoginUser> {
    /// Checks the user name, then the password.
    pub fn verify(&self) -> (r: Result<(), DetailError>)
        ensures
            !username_ok(self.target.username@) ==> is_detail_error(
                r,
                DetailErrorCode::IllegalText,
                "The username is illegal!"@,
            ),
            username_ok(self.target.username@) && !password_ok(self.target.password@)
                ==> is_detail_error(r, DetailErrorCode::IllegalText, "The password is illegal!"@),
            username_ok(self.target.username@) && password_ok(self.target.password@) ==> r is Ok,
    {
        let u = &self.target;
        if !LegalityVerification::is_username(u.username.as_str()) {
            return Err(illegal_username());
        }
        if !LegalityVerification::is_password(u.password.as_str()) {
            return Err(illegal_password());
        }
        Ok(())
    }
}

} // verus!
