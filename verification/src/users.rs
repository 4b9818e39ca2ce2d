//! What is decided about users before the store is asked: whether an email
//! address is valid, what a new user is stored with, and which fields an
//! update sets.

use vstd::prelude::*;
use crate::decimal::{decimal, i64_text};
use crate::error::{ApiError, ApiErrorKind};
use crate::password::{hash_password, password_check, password_fault, PasswordCheck};
use crate::text::text_of;

verus! {

/// What can be wrong with the data of a user.
#[derive(Debug, Clone, Copy, PartialEq, Eq, Structural)]
pub enum UserError {
    InvalidEmail,
}

impl UserError {
    /// The error in words.
    pub fn message(&self) -> (text: String)
        ensures
            text@ == "invalid email"@,
    {
        "invalid email".to_owned()
    }
}

/// The data of a request to create a user.
#[derive(Debug, Clone)]
pub struct CreateUserRequest {
    pub email: String,
    pub password: String,
    pub name: String,
}

/// The data of a request to update a user: `None` leaves a field as it is.
#[derive(Debug, Clone)]
pub struct UpdateUserRequest {
    pub email: Option<String>,
    pub name: Option<String>,
}

/// What is stored for a new user: the password is there as its hash only.
#[derive(Debug, Clone)]
pub struct NewUser {
    pub email: String,
    pub password_hash: String,
    pub name: String,
}

/// The fields that an update sets.
#[derive(Debug, Clone, Copy, PartialEq, Eq, Structural)]
pub enum UpdatePlan {
    EmailAndName,
    Email,
    Name,
    Nothing,
}

/// Whether a text is a valid email address, as the crate `email_address`
/// decides it.
pub uninterp spec fn is_valid_email(address: Seq<char>) -> bool;

/// Calls `EmailAddress::is_valid`. Trusted: the result depends on the
/// address alone.
#[verifier::external_body]
fn email_is_valid(address: &str) -> (r: bool)
    ensures
        r == is_valid_email(address@),
{
    email_address::EmailAddress::is_valid(address)
}

/// Accepts a valid email address.
pub fn validate_email(email: &str) -> (r: Result<(), UserError>)
    ensures
        r is Ok <==> is_valid_email(email@),
        r is Err ==> r->Err_0 == UserError::InvalidEmail,
{
    if email_is_valid(email) {
        Ok(())
    } else {
        Err(UserError::InvalidEmail)
    }
}

/// Prepares what is stored for a new user. The email address is checked
/// first, then the password is held to the policy and hashed.
pub fn prepare_new_user(data: &CreateUserRequest) -> (r: Result<NewUser, ApiError>)
    ensures
        !is_valid_email(data.email@) ==> r is Err && r->Err_0.has(
            ApiErrorKind::BadRequest,
            "invalid email"@,
        ),
        is_valid_email(data.email@) && password_fault(data.password@) is Some ==> r is Err
            && r->Err_0.kind_spec() == ApiErrorKind::BadRequest,
        is_valid_email(data.email@) && password_fault(data.password@) is None && r is Err
            ==> r->Err_0.has(ApiErrorKind::InternalError, "Password hashing failed"@),
        r matches Ok(user) ==> {
            &&& user.email@ == data.email@
            &&& user.name@ == data.name@
            &&& password_check(data.password@, user.password_hash@) == PasswordCheck::Match
        },
{
    if let Err(e) = validate_email(data.email.as_str()) {
        return Err(ApiError::BadRequest(e.message()));
    }
    match hash_password(data.password.as_str()) {
        Err(e) => Err(e),
        Ok(password_hash) => Ok(
            NewUser { email: data.email.clone(), password_hash, name: data.name.clone() },
        ),
    }
}

/// The fields that a request sets, by which of them it holds.
pub open spec fn update_plan(has_email: bool, has_name: bool) -> UpdatePlan {
    if has_email && has_name {
        UpdatePlan::EmailAndName
    } else if has_email {
        UpdatePlan::Email
    } else if has_name {
        UpdatePlan::Name
    } else {
        UpdatePlan::Nothing
    }
}

/// Decides which fields an update sets. A new email address must be valid.
pub fn plan_update(data: &UpdateUserRequest) -> (r: Result<UpdatePlan, ApiError>)
    ensures
        match text_of(data.email) {
            Some(email) => if is_valid_email(email) {
                r == Ok::<UpdatePlan, ApiError>(update_plan(true, data.name is Some))
            } else {
                r is Err && r->Err_0.has(ApiErrorKind::BadRequest, "invalid email"@)
            },
            None => r == Ok::<UpdatePlan, ApiError>(update_plan(false, data.name is Some)),
        },
{
    match &data.email {
        Some(email) => {
            if let Err(e) = validate_email(email.as_str()) {
                return Err(ApiError::BadRequest(e.message()));
            }
            if data.name.is_some() {
                Ok(UpdatePlan::EmailAndName)
            } else {
                Ok(UpdatePlan::Email)
            }
        },
        None => {
            if data.name.is_some() {
                Ok(UpdatePlan::Name)
            } else {
                Ok(UpdatePlan::Nothing)
            }
        },
    }
}

/// The error for a user that the store does not have.
pub fn user_not_found(user_id: i64) -> (e: ApiError)
    ensures
        e.has(ApiErrorKind::NotFound, "User "@ + decimal(user_id as int) + " not found"@),
{
    let mut message = "User ".to_owned();
    let id = i64_text(user_id);
    message.append(id.as_str());
    message.append(" not found");
    ApiError::NotFound(message)
}

/// What an update or a removal that touched `rows` rows comes to: a user
/// that was not there is not found.
pub fn rows_outcome(rows: usize, user_id: i64) -> (r: Result<(), ApiError>)
    ensures
        rows > 0 <==> r is Ok,
        rows == 0 ==> r->Err_0.has(
            ApiErrorKind::NotFound,
            "User "@ + decimal(user_id as int) + " not found"@,
        ),
{
    if rows == 0 {
        Err(user_not_found(user_id))
    } else {
        Ok(())
    }
}

} // verus!
