use user_auth::error::{AppError, Status};

#[test]
fn status_of_each_error() {
    assert_eq!(AppError::UserNotFound.status().code, 404);
    assert_eq!(AppError::UserAlreadyExists.status().code, 409);
    assert_eq!(AppError::ValidationError.status().code, 400);
    assert_eq!(AppError::AuthenticationError.status().code, 401);
    assert_eq!(AppError::DatabaseError.status().code, 500);
    assert_eq!(AppError::PasswordHashError.status().code, 500);
}

#[test]
fn status_constructors_carry_their_codes() {
    assert_eq!(Status::ok().code, 200);
    assert_eq!(Status::no_content().code, 204);
    assert_eq!(Status::bad_request().code, 400);
    assert_eq!(Status::unauthorized().code, 401);
    assert_eq!(Status::not_found().code, 404);
    assert_eq!(Status::conflict().code, 409);
    assert_eq!(Status::internal_server_error().code, 500);
    assert_eq!(Status::service_unavailable().code, 503);
}
