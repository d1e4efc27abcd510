//! Access tokens: the claims a token is issued with, and how a request's
//! `Authorization` header leads to the user it authenticates.
use vstd::prelude::*;
use crate::error::Status;
use crate::model::MAX_TIMESTAMP;
use crate::text::opt_text;
use vstd::string::StrSliceExecFns;

verus! {

/// How long a token stays valid, in seconds: one hour.
pub const TOKEN_LIFETIME: i64 = 3600;

/// Reads the system clock with `std::time::SystemTime::now()` and returns
/// the whole seconds since the Unix epoch (`duration_since(UNIX_EPOCH)`,
/// then `as_secs`), or `None` where the clock stands before the epoch.
/// Which second it is rests on the clock: nothing is claimed of it.
#[verifier::external_body]
fn seconds_since_epoch() -> (secs: Option<u64>) {
    match std::time::SystemTime::now().duration_since(std::time::UNIX_EPOCH) {
        Ok(elapsed) => Some(elapsed.as_secs()),
        Err(_) => None,
    }
}

/// The claims of an access token: the user's id as subject, and the
/// expiry as seconds since the Unix epoch.
#[derive(Clone, Copy, Debug, PartialEq, Eq, Structural)]
pub struct Claims {
    pub sub: i32,
    pub exp: usize,
}

/// The claims of a token issued at second `now` to the user `user_id`: it
/// expires an hour later, where chrono's calendar still holds that moment.
pub open spec fn expiring_claims(user_id: i32, now: i64) -> Option<Claims> {
    if now + TOKEN_LIFETIME <= MAX_TIMESTAMP {
        Some(Claims { sub: user_id, exp: (now + TOKEN_LIFETIME) as usize })
    } else {
        None
    }
}

/// The claims of a token issued to `user_id` when the clock reads `clock`:
/// none for a clock before the epoch or beyond chrono's calendar.
pub open spec fn claims_at_reading(user_id: i32, clock: Option<u64>) -> Option<Claims> {
    match clock {
        Some(secs) => if secs <= MAX_TIMESTAMP {
            expiring_claims(user_id, secs as i64)
        } else {
            None
        },
        None => None,
    }
}

impl Claims {
    /// The claims of a token issued at second `now` to the user `user_id`.
    pub fn expiring(user_id: i32, now: i64) -> (claims: Option<Claims>)
        ensures
            claims == expiring_claims(user_id, now),
    {
        if now <= MAX_TIMESTAMP - TOKEN_LIFETIME {
            let exp: i64 = now + TOKEN_LIFETIME;
            Some(Claims { sub: user_id, exp: exp as usize })
        } else {
            None
        }
    }

    /// The claims of a token issued to the user `user_id` when the clock
    /// reads `clock` seconds after the epoch: `None` for a clock before the
    /// epoch, or one whose hour ahead leaves chrono's calendar.
    pub fn issued_at(user_id: i32, clock: Option<u64>) -> (claims: Option<Claims>)
        ensures
            claims == claims_at_reading(user_id, clock),
    {
        match clock {
            Some(secs) => if secs <= MAX_TIMESTAMP as u64 {
                Claims::expiring(user_id, secs as i64)
            } else {
                None
            },
            None => None,
        }
    }

    /// The claims of a token issued now to the user `user_id`, or `None`
    /// where the clock stands before the epoch or within an hour of the end
    /// of chrono's calendar.
    pub fn issue(user_id: i32) -> (claims: Option<Claims>)
        ensures
            claims is None || exists|now: i64|
                0 <= now <= MAX_TIMESTAMP && claims == #[trigger] expiring_claims(user_id, now),
    {
        let clock = seconds_since_epoch();
        let claims = Claims::issued_at(user_id, clock);
        proof {
            if let Some(secs) = clock {
                if secs <= MAX_TIMESTAMP {
                    assert(claims == expiring_claims(user_id, secs as i64));
                }
            }
        }
        claims
    }
}

/// The user that a request's token authenticates.
#[derive(Clone, Copy, Debug, PartialEq, Eq, Structural)]
pub struct AuthenticatedUser {
    pub user_id: i32,
}

/// The scheme word that opens an `Authorization` header carrying a token.
pub open spec fn bearer_prefix() -> Seq<char> {
    seq!['B', 'e', 'a', 'r', 'e', 'r', ' ']
}

/// The token of an `Authorization` header: what follows `Bearer `.
pub open spec fn bearer_token_of(header: Seq<char>) -> Option<Seq<char>> {
    if bearer_prefix().is_prefix_of(header) {
        Some(header.skip(bearer_prefix().len() as int))
    } else {
        None
    }
}

/// The first step of authenticating a request: refuse it with a status,
/// or decode this token.
#[derive(Debug)]
pub enum HeaderCheck {
    Reject(Status),
    Decode(String),
}

/// What authenticating a request with `authorization` as its header comes
/// to before decoding: no header or no `Bearer ` token is `401`, no signing
/// secret is `500`, else the token is to be decoded.
pub open spec fn header_check(authorization: Option<Seq<char>>, secret_available: bool) -> Result<Seq<char>, u16> {
    match authorization {
        None => Err(401),
        Some(header) => match bearer_token_of(header) {
            None => Err(401),
            Some(token) => if secret_available {
                Ok(token)
            } else {
                Err(500)
            },
        },
    }
}

/// What authenticating a request comes to once its token is decoded: the
/// subject of valid claims, or `401`.
pub open spec fn authenticated(decoded: Option<Claims>) -> Result<AuthenticatedUser, Status> {
    match decoded {
        Some(claims) => Ok(AuthenticatedUser { user_id: claims.sub }),
        None => Err(Status { code: 401 }),
    }
}

/// The `i`-th character of `Bearer `.
fn bearer_prefix_char(i: usize) -> (c: char)
    requires
        i < 7,
    ensures
        c == bearer_prefix()[i as int],
{
    match i {
        0 => 'B',
        1 => 'e',
        2 => 'a',
        3 => 'r',
        4 => 'e',
        5 => 'r',
        _ => ' ',
    }
}

/// The token of an `Authorization` header, after `Bearer `.
pub fn bearer_token(header: &str) -> (token: Option<&str>)
    ensures
        bearer_token_of(header@) == (match token {
            Some(t) => Some(t@),
            None => None::<Seq<char>>,
        }),
{
    let n = header.unicode_len();
    if n < 7 {
        return None;
    }
    let mut i: usize = 0;
    while i < 7
        invariant
            i <= 7 <= n,
            n == header@.len(),
            forall|j: int| 0 <= j < i ==> header@[j] == bearer_prefix()[j],
        decreases 7 - i,
    {
        if header.get_char(i) != bearer_prefix_char(i) {
            assert(!bearer_prefix().is_prefix_of(header@)) by {
                assert(header@.subrange(0, 7)[i as int] != bearer_prefix()[i as int]);
            }
            return None;
        }
        i = i + 1;
    }
    assert(bearer_prefix() =~= header@.subrange(0, 7));
    Some(header.substring_char(7, n))
}

impl AuthenticatedUser {
    /// The first step of authenticating a request with header
    /// `authorization`, when a signing secret is or is not available.
    pub fn check_header(authorization: Option<&str>, secret_available: bool) -> (check: HeaderCheck)
        ensures
            header_check(opt_text(authorization), secret_available) == (match check {
                HeaderCheck::Decode(t) => Ok(t@),
                HeaderCheck::Reject(s) => Err(s.code),
            }),
    {
        let header = match authorization {
            Some(h) => h,
            None => return HeaderCheck::Reject(Status::unauthorized()),
        };
        let token = match bearer_token(header) {
            Some(t) => t,
            None => return HeaderCheck::Reject(Status::unauthorized()),
        };
        if !secret_available {
            return HeaderCheck::Reject(Status::internal_server_error());
        }
        HeaderCheck::Decode(token.to_owned())
    }

    /// The last step of authenticating a request: the subject of the decoded
    /// claims, or `401` where the token did not decode.
    pub fn from_claims(decoded: Option<Claims>) -> (r: Result<AuthenticatedUser, Status>)
        ensures
            r == authenticated(decoded),
    {
        match decoded {
            Some(claims) => Ok(AuthenticatedUser { user_id: claims.sub }),
            None => Err(Status::unauthorized()),
        }
    }
}

/// A header made of `Bearer ` and a token yields that token.
pub proof fn lemma_bearer_header_round_trip(token: Seq<char>)
    ensures
        bearer_token_of(bearer_prefix() + token) == Some(token),
{
    let header = bearer_prefix() + token;
    assert(bearer_prefix().is_prefix_of(header));
    assert(header.skip(7) =~= token);
}

/// A token issued to a user authenticates that user: the claims issued at
/// any second that leaves an hour on chrono's calendar decode to the same id.
pub proof fn lemma_issued_claims_authenticate_their_user(user_id: i32, now: i64)
    requires
        now + TOKEN_LIFETIME <= MAX_TIMESTAMP,
    ensures
        expiring_claims(user_id, now) is Some,
        authenticated(expiring_claims(user_id, now)) == Ok::<AuthenticatedUser, Status>(
            AuthenticatedUser { user_id },
        ),
{
}

} // verus!
