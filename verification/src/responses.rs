//! The bodies that requests carry and that answers carry, and how the
//! results of the account service become answers.
use vstd::prelude::*;
use crate::error::{status_code, AppError, Status};
use crate::model::{naive_datetime_text, User};

verus! {

/// The body of a registration request.
#[derive(Debug)]
pub struct RegisterRequest {
    pub username: String,
    pub password: String,
    pub email: String,
}

/// The body of a login request.
#[derive(Debug)]
pub struct LoginRequest {
    pub email: String,
    pub password: String,
}

/// The body of an update request; an absent field is left as it is.
#[derive(Debug)]
pub struct UpdateUserRequest {
    pub username: Option<String>,
    pub email: Option<String>,
}

/// The answer to a successful login.
#[derive(Debug)]
pub struct LoginResponse {
    pub token: String,
}

/// A user as answers show it: without the password hash, with its times as text.
#[derive(Debug)]
pub struct UserResponse {
    pub id: i32,
    pub username: String,
    pub email: String,
    pub created_at: String,
    pub updated_at: String,
}

/// `response` shows `user`: the same id, username and email, and its times
/// as chrono's `NaiveDateTime` shows them.
pub open spec fn shows(response: UserResponse, user: User) -> bool {
    &&& response.id == user.id
    &&& response.username@ == user.username@
    &&& response.email@ == user.email@
    &&& naive_datetime_text(user.created_at@.0, user.created_at@.1) == Some(response.created_at@)
    &&& naive_datetime_text(user.updated_at@.0, user.updated_at@.1) == Some(response.updated_at@)
}

impl UserResponse {
    /// How `user` is shown in answers.
    pub fn from_user(user: &User) -> (response: UserResponse)
        ensures
            shows(response, *user),
    {
        UserResponse {
            id: user.id,
            username: user.username.clone(),
            email: user.email.clone(),
            created_at: user.created_at.to_text(),
            updated_at: user.updated_at.to_text(),
        }
    }
}

/// The answer for a service result that is one user: the user shown, or the
/// status of the failure.
pub fn user_reply(result: Result<User, AppError>) -> (reply: Result<UserResponse, Status>)
    ensures
        match result {
            Ok(user) => reply matches Ok(response) && shows(response, user),
            Err(e) => reply == Err::<UserResponse, Status>(Status { code: status_code(e) }),
        },
{
    match result {
        Ok(user) => Ok(UserResponse::from_user(&user)),
        Err(e) => Err(e.status()),
    }
}

/// The answer for a service result that is a list of users: each user
/// shown, in order, or the status of the failure.
pub fn users_reply(result: Result<Vec<User>, AppError>) -> (reply: Result<Vec<UserResponse>, Status>)
    ensures
        match result {
            Ok(users) => reply matches Ok(responses) && responses.len() == users.len() && (forall|i: int|
                0 <= i < users.len() ==> shows(#[trigger] responses[i], users[i])),
            Err(e) => reply == Err::<Vec<UserResponse>, Status>(Status { code: status_code(e) }),
        },
{
    match result {
        Ok(users) => {
            let mut responses: Vec<UserResponse> = Vec::new();
            for i in 0..users.len()
                invariant
                    responses.len() == i,
                    forall|j: int| 0 <= j < i ==> shows(#[trigger] responses[j], users[j]),
            {
                responses.push(UserResponse::from_user(&users[i]));
            }
            Ok(responses)
        },
        Err(e) => Err(e.status()),
    }
}

/// The answer for a deletion: `204 No Content`, or the status of the failure.
pub fn deletion_reply(result: Result<(), AppError>) -> (reply: Result<Status, Status>)
    ensures
        reply == (match result {
            Ok(()) => Ok::<Status, Status>(Status { code: 204 }),
            Err(e) => Err(Status { code: status_code(e) }),
        }),
{
    match result {
        Ok(()) => Ok(Status::no_content()),
        Err(e) => Err(e.status()),
    }
}

/// For a login result: the id of the user a token is to be issued to, or
/// the status of the failure.
pub fn login_subject(result: Result<User, AppError>) -> (subject: Result<i32, Status>)
    ensures
        subject == (match result {
            Ok(user) => Ok::<i32, Status>(user.id),
            Err(e) => Err(Status { code: status_code(e) }),
        }),
{
    match result {
        Ok(user) => Ok(user.id),
        Err(e) => Err(e.status()),
    }
}

/// The answer to a login once its token is made: the token, or `500` where
/// no token could be made.
pub fn login_reply(token: Option<String>) -> (reply: Result<LoginResponse, Status>)
    ensures
        match token {
            Some(t) => reply matches Ok(response) && response.token@ == t@,
            None => reply == Err::<LoginResponse, Status>(Status { code: 500 }),
        },
{
    match token {
        Some(token) => Ok(LoginResponse { token }),
        None => Err(Status::internal_server_error()),
    }
}

} // verus!
