use user_auth::error::{AppError, Status};
use user_auth::model::{Timestamp, User};
use user_auth::responses::{deletion_reply, login_reply, login_subject, user_reply, users_reply, UserResponse};

fn user(id: i32) -> User {
    User {
        id,
        username: format!("user{}", id),
        password_hash: "$2b$12$secret".to_string(),
        email: format!("user{}@example.com", id),
        created_at: Timestamp::new(1_704_164_645, 0).unwrap(),
        updated_at: Timestamp::new(1_704_250_000, 250_000_000).unwrap(),
    }
}

#[test]
fn a_user_is_shown_without_its_hash() {
    let r = UserResponse::from_user(&user(4));
    assert_eq!(r.id, 4);
    assert_eq!(r.username, "user4");
    assert_eq!(r.email, "user4@example.com");
    assert_eq!(r.created_at, "2024-01-02 03:04:05");
    assert_eq!(r.updated_at, "2024-01-03 02:46:40.250");
}

#[test]
fn user_replies() {
    let r = user_reply(Ok(user(1))).unwrap();
    assert_eq!(r.id, 1);
    assert_eq!(user_reply(Err(AppError::UserNotFound)).unwrap_err(), Status { code: 404 });
    assert_eq!(user_reply(Err(AppError::ValidationError)).unwrap_err(), Status { code: 400 });
}

#[test]
fn users_replies_keep_the_order() {
    let r = users_reply(Ok(vec![user(3), user(1), user(2)])).unwrap();
    let ids: Vec<i32> = r.iter().map(|u| u.id).collect();
    assert_eq!(ids, vec![3, 1, 2]);
    assert!(users_reply(Ok(vec![])).unwrap().is_empty());
    assert_eq!(users_reply(Err(AppError::DatabaseError)).unwrap_err(), Status { code: 500 });
}

#[test]
fn deletion_replies() {
    assert_eq!(deletion_reply(Ok(())), Ok(Status { code: 204 }));
    assert_eq!(deletion_reply(Err(AppError::UserNotFound)), Err(Status { code: 404 }));
}

#[test]
fn login_replies() {
    assert_eq!(login_subject(Ok(user(12))), Ok(12));
    assert_eq!(login_subject(Err(AppError::AuthenticationError)), Err(Status { code: 401 }));
    assert_eq!(login_subject(Err(AppError::UserNotFound)), Err(Status { code: 404 }));
    assert_eq!(login_reply(Some("abc".to_string())).unwrap().token, "abc");
    assert_eq!(login_reply(None).unwrap_err(), Status { code: 500 });
}
