//! Failures of the account service and the HTTP status each one is answered with.
use vstd::prelude::*;

verus! {

/// An HTTP status, by its numeric code.
#[derive(Clone, Copy, Debug, PartialEq, Eq, Structural)]
pub struct Status {
    pub code: u16,
}

impl Status {
    /// `200 OK`.
    pub fn ok() -> (s: Status)
        ensures
            s.code == 200,
    {
        Status { code: 200 }
    }

    /// `204 No Content`.
    pub fn no_content() -> (s: Status)
        ensures
            s.code == 204,
    {
        Status { code: 204 }
    }

    /// `400 Bad Request`.
    pub fn bad_request() -> (s: Status)
        ensures
            s.code == 400,
    {
        Status { code: 400 }
    }

    /// `401 Unauthorized`.
    pub fn unauthorized() -> (s: Status)
        ensures
            s.code == 401,
    {
        Status { code: 401 }
    }

    /// `404 Not Found`.
    pub fn not_found() -> (s: Status)
        ensures
            s.code == 404,
    {
        Status { code: 404 }
    }

    /// `409 Conflict`.
    pub fn conflict() -> (s: Status)
        ensures
            s.code == 409,
    {
        Status { code: 409 }
    }

    /// `500 Internal Server Error`.
    pub fn internal_server_error() -> (s: Status)
        ensures
            s.code == 500,
    {
        Status { code: 500 }
    }

    /// `503 Service Unavailable`.
    pub fn service_unavailable() -> (s: Status)
        ensures
            s.code == 503,
    {
        Status { code: 503 }
    }
}

/// Why an account operation failed.
#[derive(Clone, Copy, Debug, PartialEq, Eq, Structural)]
pub enum AppError {
    UserAlreadyExists,
    UserNotFound,
    ValidationError,
    AuthenticationError,
    DatabaseError,
    PasswordHashError,
}

/// The status code that answers each failure: a missing user is `404`, a
/// taken email `409`, invalid input `400`, a refused login `401`, and a
/// failure of the store or of password hashing `500`.
pub open spec fn status_code(error: AppError) -> u16 {
    match error {
        AppError::UserNotFound => 404,
        AppError::UserAlreadyExists => 409,
        AppError::ValidationError => 400,
        AppError::AuthenticationError => 401,
        AppError::DatabaseError => 500,
        AppError::PasswordHashError => 500,
    }
}

impl AppError {
    /// The HTTP status that a request failing with this error is answered with.
    pub fn status(&self) -> (s: Status)
        ensures
            s.code == status_code(*self),
    {
        match self {
            AppError::UserNotFound => Status::not_found(),
            AppError::UserAlreadyExists => Status::conflict(),
            AppError::ValidationError => Status::bad_request(),
            AppError::AuthenticationError => Status::unauthorized(),
            AppError::DatabaseError => Status::internal_server_error(),
            AppError::PasswordHashError => Status::internal_server_error(),
        }
    }
}

} // verus!
