use user_auth::error::Status;
use user_auth::model::MAX_TIMESTAMP;
use user_auth::token::{bearer_token, AuthenticatedUser, Claims, HeaderCheck, TOKEN_LIFETIME};

#[test]
fn claims_expire_an_hour_after_issue() {
    assert_eq!(Claims::expiring(7, 1000), Some(Claims { sub: 7, exp: 4600 }));
    assert_eq!(Claims::expiring(-3, 0), Some(Claims { sub: -3, exp: 3600 }));
    assert_eq!(TOKEN_LIFETIME, 3600);
}

#[test]
fn claims_past_the_calendar_are_not_issued() {
    assert_eq!(Claims::expiring(1, MAX_TIMESTAMP - 3600), Some(Claims { sub: 1, exp: MAX_TIMESTAMP as usize }));
    assert_eq!(Claims::expiring(1, MAX_TIMESTAMP - 3599), None);
    assert_eq!(Claims::expiring(1, i64::MAX), None);
}

#[test]
fn claims_issued_now_name_the_user() {
    let before = std::time::SystemTime::now().duration_since(std::time::UNIX_EPOCH).unwrap().as_secs() as usize;
    let claims = Claims::issue(42).unwrap();
    let after = std::time::SystemTime::now().duration_since(std::time::UNIX_EPOCH).unwrap().as_secs() as usize;
    assert_eq!(claims.sub, 42);
    assert!(before + 3600 <= claims.exp && claims.exp <= after + 3600);
}

#[test]
fn claims_follow_the_clock_reading() {
    assert_eq!(Claims::issued_at(5, Some(1000)), Some(Claims { sub: 5, exp: 4600 }));
    assert_eq!(Claims::issued_at(5, None), None);
    assert_eq!(Claims::issued_at(5, Some(MAX_TIMESTAMP as u64 - 3600)), Some(Claims { sub: 5, exp: MAX_TIMESTAMP as usize }));
    assert_eq!(Claims::issued_at(5, Some(MAX_TIMESTAMP as u64 - 3599)), None);
    assert_eq!(Claims::issued_at(5, Some(MAX_TIMESTAMP as u64 + 1)), None);
    assert_eq!(Claims::issued_at(5, Some(u64::MAX)), None);
}

#[test]
fn bearer_tokens_follow_the_scheme_word() {
    assert_eq!(bearer_token("Bearer abc.def.ghi"), Some("abc.def.ghi"));
    assert_eq!(bearer_token("Bearer "), Some(""));
    assert_eq!(bearer_token("Bearer  x"), Some(" x"));
    assert_eq!(bearer_token("bearer abc"), None);
    assert_eq!(bearer_token("Bearerabc"), None);
    assert_eq!(bearer_token("Basic abc"), None);
    assert_eq!(bearer_token(""), None);
}

#[test]
fn header_checks() {
    assert!(matches!(AuthenticatedUser::check_header(None, true), HeaderCheck::Reject(Status { code: 401 })));
    assert!(matches!(AuthenticatedUser::check_header(Some("Token x"), true), HeaderCheck::Reject(Status { code: 401 })));
    assert!(matches!(AuthenticatedUser::check_header(Some("Token x"), false), HeaderCheck::Reject(Status { code: 401 })));
    assert!(matches!(AuthenticatedUser::check_header(Some("Bearer x"), false), HeaderCheck::Reject(Status { code: 500 })));
    match AuthenticatedUser::check_header(Some("Bearer x.y.z"), true) {
        HeaderCheck::Decode(t) => assert_eq!(t, "x.y.z"),
        other => panic!("{:?}", other),
    }
}

#[test]
fn decoded_claims_authenticate_their_subject() {
    assert_eq!(AuthenticatedUser::from_claims(Some(Claims { sub: 9, exp: 1 })), Ok(AuthenticatedUser { user_id: 9 }));
    assert_eq!(AuthenticatedUser::from_claims(None), Err(Status { code: 401 }));
}

#[test]
fn issued_claims_authenticate_their_user() {
    let claims = Claims::expiring(31, 1_700_000_000).unwrap();
    assert_eq!(AuthenticatedUser::from_claims(Some(claims)), Ok(AuthenticatedUser { user_id: 31 }));
}

#[test]
fn a_bearer_header_round_trips() {
    let token = "eyJ0eXAiOiJKV1QifQ.e30.sig";
    let header = format!("Bearer {}", token);
    assert_eq!(bearer_token(&header), Some(token));
}
