use user_auth::error::AppError;
use user_auth::model::{Timestamp, User};
use user_auth::password::{hash_password, verify_password};
use user_auth::service::{LoginState, RegisterState, Step, StoreReply, StoreRequest, UpdateState, UserService};

fn user(id: i32, email: &str, password_hash: &str) -> User {
    User {
        id,
        username: format!("user{}", id),
        password_hash: password_hash.to_string(),
        email: email.to_string(),
        created_at: Timestamp::new(1_704_164_645, 0).unwrap(),
        updated_at: Timestamp::new(1_704_164_700, 0).unwrap(),
    }
}

fn done<S: std::fmt::Debug, T: std::fmt::Debug>(step: Step<S, T>) -> Result<T, AppError> {
    match step {
        Step::Done(r) => r,
        other => panic!("expected a result, got {:?}", other),
    }
}

const KNOWN_HASH: &str = "$2b$04$EGdrhbKUv8Oc9vGiXX0HQOxSg445d458Muh7DAHskb6QbtCvdxcie";
const KNOWN_PASSWORD: &str = "correctbatteryhorsestapler";

// login

#[test]
fn login_looks_the_email_up() {
    match UserService::login("pw", "a@b.c") {
        Step::Ask(LoginState { password }, StoreRequest::FindByEmail(email)) => {
            assert_eq!(password, "pw");
            assert_eq!(email, "a@b.c");
        },
        other => panic!("{:?}", other),
    }
}

fn login_state(password: &str) -> LoginState {
    match UserService::login(password, "a@b.c") {
        Step::Ask(state, _) => state,
        other => panic!("{:?}", other),
    }
}

#[test]
fn login_with_the_right_password_admits_the_user() {
    let found = user(3, "a@b.c", KNOWN_HASH);
    let r = done(UserService::login_resume(login_state(KNOWN_PASSWORD), StoreReply::Found(found)));
    assert_eq!(r.unwrap().id, 3);
}

#[test]
fn login_with_a_wrong_password_is_refused() {
    let found = user(3, "a@b.c", KNOWN_HASH);
    let r = done(UserService::login_resume(login_state("wrong"), StoreReply::Found(found)));
    assert_eq!(r.unwrap_err(), AppError::AuthenticationError);
}

#[test]
fn login_against_an_unreadable_hash_is_refused() {
    let found = user(3, "a@b.c", "plain");
    let r = done(UserService::login_resume(login_state("plain"), StoreReply::Found(found)));
    assert_eq!(r.unwrap_err(), AppError::AuthenticationError);
}

#[test]
fn login_of_an_unknown_email_is_user_not_found() {
    let r = done(UserService::login_resume(login_state("x"), StoreReply::NotFound));
    assert_eq!(r.unwrap_err(), AppError::UserNotFound);
}

#[test]
fn login_when_the_store_fails_is_a_database_error() {
    let r = done(UserService::login_resume(login_state("x"), StoreReply::Failed));
    assert_eq!(r.unwrap_err(), AppError::DatabaseError);
    let r = done(UserService::login_resume(login_state("x"), StoreReply::Affected(1)));
    assert_eq!(r.unwrap_err(), AppError::DatabaseError);
}

#[test]
fn login_verdicts() {
    assert_eq!(UserService::login_checked(user(1, "e", "h"), Some(true)).unwrap().id, 1);
    assert_eq!(UserService::login_checked(user(1, "e", "h"), Some(false)).unwrap_err(), AppError::AuthenticationError);
    assert_eq!(UserService::login_checked(user(1, "e", "h"), None).unwrap_err(), AppError::AuthenticationError);
}

// register

fn register_invalid(username: &str, email: &str, password: &str) -> bool {
    matches!(UserService::register(username, email, password), Step::Done(Err(AppError::ValidationError)))
}

#[test]
fn registration_refuses_blank_fields() {
    assert!(register_invalid("", "a@b.c", "secret1"));
    assert!(register_invalid("   ", "a@b.c", "secret1"));
    assert!(register_invalid("alice", " \t", "secret1"));
    assert!(register_invalid("alice", "a@b.c", "       "));
    assert!(register_invalid("alice", "a@b.c", ""));
}

#[test]
fn registration_refuses_short_passwords_by_bytes() {
    assert!(register_invalid("alice", "a@b.c", "abc12"));
    assert!(register_invalid("alice", "a@b.c", "\u{e9}\u{e9}"));
    assert!(!register_invalid("alice", "a@b.c", "\u{e9}\u{e9}\u{e9}"));
    assert!(!register_invalid("alice", "a@b.c", "abc123"));
    assert!(!register_invalid("alice", "a@b.c", " abc1 "));
}

#[test]
fn registration_asks_whether_the_email_is_taken() {
    match UserService::register("alice", "a@b.c", "secret1") {
        Step::Ask(RegisterState::CheckingEmail { username, email, password }, StoreRequest::FindByEmail(q)) => {
            assert_eq!(username, "alice");
            assert_eq!(email, "a@b.c");
            assert_eq!(password, "secret1");
            assert_eq!(q, "a@b.c");
        },
        other => panic!("{:?}", other),
    }
}

fn checking(password: &str) -> RegisterState {
    RegisterState::CheckingEmail {
        username: "alice".to_string(),
        email: "a@b.c".to_string(),
        password: password.to_string(),
    }
}

#[test]
fn registration_of_a_taken_email_is_refused() {
    let r = done(UserService::register_resume(checking("secret1"), StoreReply::Found(user(1, "a@b.c", "h"))));
    assert_eq!(r.unwrap_err(), AppError::UserAlreadyExists);
}

#[test]
fn registration_when_the_lookup_fails_is_a_database_error() {
    let r = done(UserService::register_resume(checking("secret1"), StoreReply::Failed));
    assert_eq!(r.unwrap_err(), AppError::DatabaseError);
}

#[test]
fn registration_of_a_free_email_writes_a_hashed_password() {
    match UserService::register_resume(checking("secret1"), StoreReply::NotFound) {
        Step::Ask(RegisterState::Creating, StoreRequest::Create(row)) => {
            assert_eq!(row.username, "alice");
            assert_eq!(row.email, "a@b.c");
            assert_ne!(row.password_hash, "secret1");
            assert_eq!(verify_password("secret1", &row.password_hash), Some(true));
        },
        other => panic!("{:?}", other),
    }
}

#[test]
fn registration_ends_with_the_written_user() {
    let r = done(UserService::register_resume(RegisterState::Creating, StoreReply::Found(user(8, "a@b.c", "h"))));
    assert_eq!(r.unwrap().id, 8);
    let r = done(UserService::register_resume(RegisterState::Creating, StoreReply::Failed));
    assert_eq!(r.unwrap_err(), AppError::DatabaseError);
    let r = done(UserService::register_resume(RegisterState::Creating, StoreReply::NotFound));
    assert_eq!(r.unwrap_err(), AppError::DatabaseError);
}

#[test]
fn registration_with_a_failed_hash_is_a_password_hash_error() {
    let r = done(UserService::register_hashed("a".to_string(), "b".to_string(), Err(AppError::PasswordHashError)));
    assert_eq!(r.unwrap_err(), AppError::PasswordHashError);
    match UserService::register_hashed("a".to_string(), "b".to_string(), Ok("$h".to_string())) {
        Step::Ask(RegisterState::Creating, StoreRequest::Create(row)) => {
            assert_eq!(row.username, "a");
            assert_eq!(row.email, "b");
            assert_eq!(row.password_hash, "$h");
        },
        other => panic!("{:?}", other),
    }
}

#[test]
fn a_registered_password_logs_in() {
    let row = match UserService::register_resume(checking("secret1"), StoreReply::NotFound) {
        Step::Ask(RegisterState::Creating, StoreRequest::Create(row)) => row,
        other => panic!("{:?}", other),
    };
    let stored = user(5, "a@b.c", &row.password_hash);
    let r = done(UserService::login_resume(login_state("secret1"), StoreReply::Found(stored)));
    assert_eq!(r.unwrap().id, 5);
    let stored = user(5, "a@b.c", &row.password_hash);
    let r = done(UserService::login_resume(login_state("secret2"), StoreReply::Found(stored)));
    assert_eq!(r.unwrap_err(), AppError::AuthenticationError);
}

#[test]
fn a_hash_made_here_logs_in() {
    let h = hash_password("p4ssword").unwrap();
    let r = done(UserService::login_resume(login_state("p4ssword"), StoreReply::Found(user(2, "x", &h))));
    assert_eq!(r.unwrap().id, 2);
}

// listing and lookup

#[test]
fn listing_users() {
    assert!(matches!(UserService::get_all(), Step::Ask((), StoreRequest::FindAll)));
    let r = done(UserService::get_all_resume((), StoreReply::All(vec![user(1, "a", "h"), user(2, "b", "h")])));
    let ids: Vec<i32> = r.unwrap().iter().map(|u| u.id).collect();
    assert_eq!(ids, vec![1, 2]);
    let r = done(UserService::get_all_resume((), StoreReply::All(vec![])));
    assert!(r.unwrap().is_empty());
    assert_eq!(done(UserService::get_all_resume((), StoreReply::Failed)).unwrap_err(), AppError::DatabaseError);
}

#[test]
fn looking_a_user_up() {
    assert!(matches!(UserService::get_by_id(4), Step::Ask((), StoreRequest::FindById(4))));
    assert_eq!(done(UserService::get_by_id_resume((), StoreReply::Found(user(4, "a", "h")))).unwrap().id, 4);
    assert_eq!(done(UserService::get_by_id_resume((), StoreReply::NotFound)).unwrap_err(), AppError::UserNotFound);
    assert_eq!(done(UserService::get_by_id_resume((), StoreReply::Failed)).unwrap_err(), AppError::DatabaseError);
}

// delete

#[test]
fn deleting_a_user() {
    assert!(matches!(UserService::delete(6), Step::Ask((), StoreRequest::Delete(6))));
    assert_eq!(done(UserService::delete_resume((), StoreReply::Affected(1))), Ok(()));
    assert_eq!(done(UserService::delete_resume((), StoreReply::Affected(2))), Ok(()));
    assert_eq!(done(UserService::delete_resume((), StoreReply::Affected(0))), Err(AppError::UserNotFound));
    assert_eq!(done(UserService::delete_resume((), StoreReply::Failed)), Err(AppError::DatabaseError));
}

// update

fn update_invalid(username: Option<&str>, email: Option<&str>) -> bool {
    matches!(UserService::update(1, username, email), Step::Done(Err(AppError::ValidationError)))
}

#[test]
fn updates_that_change_nothing_or_blank_a_field_are_refused() {
    assert!(update_invalid(None, None));
    assert!(update_invalid(Some(""), None));
    assert!(update_invalid(Some(" "), Some("a@b.c")));
    assert!(update_invalid(None, Some("\t")));
    assert!(update_invalid(Some("bob"), Some("")));
    assert!(!update_invalid(Some("bob"), None));
    assert!(!update_invalid(None, Some("a@b.c")));
}

#[test]
fn an_update_writes_exactly_the_given_fields() {
    match UserService::update(9, Some("bob"), None) {
        Step::Ask(UpdateState::Checking { user_id, changes }, StoreRequest::FindById(q)) => {
            assert_eq!(user_id, 9);
            assert_eq!(q, 9);
            assert_eq!(changes.username.as_deref(), Some("bob"));
            assert_eq!(changes.email, None);
        },
        other => panic!("{:?}", other),
    }
}

#[test]
fn an_update_checks_writes_and_reloads() {
    let state = match UserService::update(9, None, Some("new@b.c")) {
        Step::Ask(state, _) => state,
        other => panic!("{:?}", other),
    };
    let state = match UserService::update_resume(state, StoreReply::Found(user(9, "old@b.c", "h"))) {
        Step::Ask(state @ UpdateState::Applying { user_id: 9 }, StoreRequest::Update(9, changes)) => {
            assert_eq!(changes.email.as_deref(), Some("new@b.c"));
            assert_eq!(changes.username, None);
            state
        },
        other => panic!("{:?}", other),
    };
    let state = match UserService::update_resume(state, StoreReply::Affected(0)) {
        Step::Ask(state @ UpdateState::Reloading, StoreRequest::FindById(9)) => state,
        other => panic!("{:?}", other),
    };
    let r = done(UserService::update_resume(state, StoreReply::Found(user(9, "new@b.c", "h"))));
    assert_eq!(r.unwrap().email, "new@b.c");
}

#[test]
fn update_failures() {
    let checking = || UpdateState::Checking { user_id: 2, changes: user_auth::model::UpdateUser { username: Some("x".to_string()), email: None } };
    assert_eq!(done(UserService::update_resume(checking(), StoreReply::NotFound)).unwrap_err(), AppError::UserNotFound);
    assert_eq!(done(UserService::update_resume(checking(), StoreReply::Failed)).unwrap_err(), AppError::DatabaseError);
    assert_eq!(done(UserService::update_resume(UpdateState::Applying { user_id: 2 }, StoreReply::Failed)).unwrap_err(), AppError::DatabaseError);
    assert_eq!(done(UserService::update_resume(UpdateState::Reloading, StoreReply::NotFound)).unwrap_err(), AppError::DatabaseError);
    assert_eq!(done(UserService::update_resume(UpdateState::Reloading, StoreReply::Failed)).unwrap_err(), AppError::DatabaseError);
}
