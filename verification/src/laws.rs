//! What the account operations do, stated over their inputs and results.
use vstd::prelude::*;
use vstd::utf8::encode_utf8;
use crate::error::{status_code, AppError, Status};
use crate::model::{naive_datetime_text, timestamp_in_range, NewUser, User, MAX_TIMESTAMP, MIN_TIMESTAMP};
use crate::password::{default_cost_hash_form, hash_accepts};
use crate::responses::{shows, UserResponse};
use crate::service::{
    delete_ends, listing_ends, login_begins, login_ends, lookup_ends, opt_string, register_begins,
    register_resumes, update_begins, update_resumes, LoginState, RegisterState, Step, StoreReply,
    StoreRequest, UpdateState,
};
use crate::store::{created, store_answers};
use crate::text::is_white_space;
use crate::token::{authenticated, claims_at_reading, header_check, AuthenticatedUser, Claims};

verus! {

/// Some character of `s` is not white space.
pub open spec fn has_visible_char(s: Seq<char>) -> bool {
    exists|i: int| 0 <= i < s.len() && !is_white_space(#[trigger] s[i])
}

/// Every failure is answered with its status: `404` exactly for a missing
/// user, `409` exactly for a taken email, `400` exactly for invalid input,
/// `401` exactly for a refused login, `500` exactly for a failure of the
/// store or of hashing.
pub proof fn lemma_failure_statuses(error: AppError)
    ensures
        status_code(error) == 404 <==> error == AppError::UserNotFound,
        status_code(error) == 409 <==> error == AppError::UserAlreadyExists,
        status_code(error) == 400 <==> error == AppError::ValidationError,
        status_code(error) == 401 <==> error == AppError::AuthenticationError,
        status_code(error) == 500 <==> (error == AppError::DatabaseError || error
            == AppError::PasswordHashError),
{
}

/// Registration input with a visible character in each field and a password
/// of at least six UTF-8 bytes is never refused, however long the password
/// (up to the most bytes a string in memory can hold):
/// the first step asks the store for that email and keeps the three fields.
pub proof fn lemma_valid_registration_goes_on(
    username: Seq<char>,
    email: Seq<char>,
    password: Seq<char>,
    step: Step<RegisterState, User>,
)
    requires
        has_visible_char(username),
        has_visible_char(email),
        has_visible_char(password),
        6 <= encode_utf8(password).len() <= usize::MAX,
        register_begins(username, email, password, step),
    ensures
        step matches Step::Ask(
            RegisterState::CheckingEmail { username: u, email: e, password: p },
            StoreRequest::FindByEmail(q),
        ) && u@ == username && e@ == email && p@ == password && q@ == email,
{
    assert(!crate::text::is_blank(username));
    assert(!crate::text::is_blank(email));
    assert(!crate::text::is_blank(password));
}

/// Registration input with a blank field, or a password shorter than six
/// UTF-8 bytes, is refused at once with `ValidationError`.
pub proof fn lemma_invalid_registration_is_refused(
    username: Seq<char>,
    email: Seq<char>,
    password: Seq<char>,
    step: Step<RegisterState, User>,
)
    requires
        !has_visible_char(username) || !has_visible_char(email) || !has_visible_char(password)
            || encode_utf8(password).len() < 6,
        register_begins(username, email, password, step),
    ensures
        step == Step::<RegisterState, User>::Done(Err(AppError::ValidationError)),
{
    if !has_visible_char(username) {
        assert(crate::text::is_blank(username));
    } else if !has_visible_char(email) {
        assert(crate::text::is_blank(email));
    } else if !has_visible_char(password) {
        assert(crate::text::is_blank(password));
    }
}

/// A registration whose email is taken is refused with `UserAlreadyExists`,
/// one whose lookup fails with `DatabaseError`; for a free email the row it
/// writes holds exactly the registered username and email, with a bcrypt
/// hash at the default cost that accepts the password.
pub proof fn lemma_registration_lookup_answers(
    username: Seq<char>,
    email: Seq<char>,
    password: Seq<char>,
    state: RegisterState,
    reply: StoreReply,
    step: Step<RegisterState, User>,
)
    requires
        state matches RegisterState::CheckingEmail { username: u, email: e, password: p } && u@ == username
            && e@ == email && p@ == password,
        register_resumes(state, reply, step),
    ensures
        reply is Found ==> step == Step::<RegisterState, User>::Done(Err(AppError::UserAlreadyExists)),
        reply is Failed ==> step == Step::<RegisterState, User>::Done(Err(AppError::DatabaseError)),
        reply is NotFound ==> (step == Step::<RegisterState, User>::Done(Err(AppError::PasswordHashError))
            || (step matches Step::Ask(RegisterState::Creating, StoreRequest::Create(row)) && row.username@
            == username && row.email@ == email && hash_accepts(password, row.password_hash@)
            && default_cost_hash_form(row.password_hash@))),
{
}

/// A registration ends with the user the store wrote: once the store
/// answers the insert of the registered row with `user`, the result is
/// `Ok(user)`, and that user holds the registered username and email (not
/// swapped) under its own id in the table.
pub proof fn lemma_registration_ends_with_the_written_user(
    same: spec_fn(Seq<char>, Seq<char>) -> bool,
    before: Map<i32, User>,
    username: Seq<char>,
    email: Seq<char>,
    row: NewUser,
    user: User,
    after: Map<i32, User>,
    step: Step<RegisterState, User>,
)
    requires
        row.username@ == username,
        row.email@ == email,
        store_answers(same, before, StoreRequest::Create(row), StoreReply::Found(user), after),
        register_resumes(RegisterState::Creating, StoreReply::Found(user), step),
    ensures
        step == Step::<RegisterState, User>::Done(Ok(user)),
        user.username@ == username,
        user.email@ == email,
        after.contains_key(user.id) && after[user.id] == user,
{
    assert(created(before, row, after, user));
}

/// A registration waiting for its insert fails with `DatabaseError` on any
/// answer but a written user.
pub proof fn lemma_registration_insert_failure(reply: StoreReply, step: Step<RegisterState, User>)
    requires
        !(reply is Found),
        register_resumes(RegisterState::Creating, reply, step),
    ensures
        step == Step::<RegisterState, User>::Done(Err(AppError::DatabaseError)),
{
}

/// A login asks the store for the user with the given email, keeping the password.
pub proof fn lemma_login_asks_for_the_email(password: Seq<char>, email: Seq<char>, step: Step<LoginState, User>)
    requires
        login_begins(password, email, step),
    ensures
        step matches Step::Ask(state, StoreRequest::FindByEmail(e)) && e@ == email && state.password@
            == password,
{
}

/// A login admits exactly the user the store found, and only when its
/// stored hash accepts the password; a found user whose hash does not is
/// `AuthenticationError`, an unknown email `UserNotFound`, a failure of the
/// store `DatabaseError`.
pub proof fn lemma_login_answers(state: LoginState, reply: StoreReply)
    ensures
        login_ends(state, reply) matches Ok(user) ==> (reply matches StoreReply::Found(found) && found == user
            && hash_accepts(state.password@, user.password_hash@)),
        reply matches StoreReply::Found(user) ==> (hash_accepts(state.password@, user.password_hash@)
            <==> login_ends(state, reply) == Ok::<User, AppError>(user)),
        reply matches StoreReply::Found(user) && !hash_accepts(state.password@, user.password_hash@)
            ==> login_ends(state, reply) == Err::<User, AppError>(AppError::AuthenticationError),
        reply is NotFound ==> login_ends(state, reply) == Err::<User, AppError>(AppError::UserNotFound),
        !(reply is Found) && !(reply is NotFound) ==> login_ends(state, reply) == Err::<User, AppError>(
            AppError::DatabaseError,
        ),
{
}

/// A lookup by id answers the user the store found, `UserNotFound` where
/// there is none, and `DatabaseError` otherwise.
pub proof fn lemma_lookup_answers(reply: StoreReply)
    ensures
        reply matches StoreReply::Found(user) ==> lookup_ends(reply) == Ok::<User, AppError>(user),
        reply is NotFound ==> lookup_ends(reply) == Err::<User, AppError>(AppError::UserNotFound),
        lookup_ends(reply) is Ok ==> reply is Found,
        !(reply is Found) && !(reply is NotFound) ==> lookup_ends(reply) == Err::<User, AppError>(
            AppError::DatabaseError,
        ),
{
}

/// A listing answers the users the store listed, and `DatabaseError` otherwise.
pub proof fn lemma_listing_answers(reply: StoreReply)
    ensures
        reply matches StoreReply::All(users) ==> listing_ends(reply) == Ok::<Vec<User>, AppError>(users),
        !(reply is All) ==> listing_ends(reply) == Err::<Vec<User>, AppError>(AppError::DatabaseError),
{
}

/// A deletion succeeds exactly when the store deleted some row, is
/// `UserNotFound` exactly when it deleted none, and `DatabaseError` otherwise.
pub proof fn lemma_delete_answers(reply: StoreReply)
    ensures
        delete_ends(reply) == Ok::<(), AppError>(()) <==> (reply matches StoreReply::Affected(n) && n > 0),
        delete_ends(reply) == Err::<(), AppError>(AppError::UserNotFound) <==> (reply matches StoreReply::Affected(n)
            && n == 0),
        !(reply is Affected) ==> delete_ends(reply) == Err::<(), AppError>(AppError::DatabaseError),
{
}

/// An update that gives at least one field and no blank one is never
/// refused: its first step asks the store for the user, carrying exactly
/// the given fields, whichever and however many they are.
pub proof fn lemma_valid_update_goes_on(
    user_id: i32,
    username: Option<Seq<char>>,
    email: Option<Seq<char>>,
    step: Step<UpdateState, User>,
)
    requires
        username is Some || email is Some,
        username matches Some(u) ==> has_visible_char(u),
        email matches Some(e) ==> has_visible_char(e),
        update_begins(user_id, username, email, step),
    ensures
        step matches Step::Ask(UpdateState::Checking { user_id: i, changes }, StoreRequest::FindById(j))
            && i == user_id && j == user_id && opt_string(changes.username) == username
            && opt_string(changes.email) == email,
{
    if let Some(u) = username {
        assert(!crate::text::is_blank(u));
    }
    if let Some(e) = email {
        assert(!crate::text::is_blank(e));
    }
}

/// An update that gives no field, or a blank one, is refused at once with
/// `ValidationError`.
pub proof fn lemma_invalid_update_is_refused(
    user_id: i32,
    username: Option<Seq<char>>,
    email: Option<Seq<char>>,
    step: Step<UpdateState, User>,
)
    requires
        (username is None && email is None) || (username matches Some(u) && !has_visible_char(u))
            || (email matches Some(e) && !has_visible_char(e)),
        update_begins(user_id, username, email, step),
    ensures
        step == Step::<UpdateState, User>::Done(Err(AppError::ValidationError)),
{
    if let Some(u) = username {
        if !has_visible_char(u) {
            assert(crate::text::is_blank(u));
        }
    }
    if let Some(e) = email {
        if !has_visible_char(e) {
            assert(crate::text::is_blank(e));
        }
    }
}

/// An update writes the changes it was started with to the user it asked
/// for once the store found it, fails with `UserNotFound` where there is no
/// such user, rereads the user after the write, and ends with the user the
/// reread found.
pub proof fn lemma_update_answers(state: UpdateState, reply: StoreReply, step: Step<UpdateState, User>)
    requires
        update_resumes(state, reply, step),
    ensures
        state matches UpdateState::Checking { user_id, changes } ==> (reply is Found ==> step
            == Step::<UpdateState, User>::Ask(
            UpdateState::Applying { user_id },
            StoreRequest::Update(user_id, changes),
        )) && (reply is NotFound ==> step == Step::<UpdateState, User>::Done(Err(AppError::UserNotFound))),
        state matches UpdateState::Applying { user_id } ==> (reply is Affected ==> step
            == Step::<UpdateState, User>::Ask(UpdateState::Reloading, StoreRequest::FindById(user_id))),
        state is Reloading ==> (reply matches StoreReply::Found(user) ==> step == Step::<UpdateState, User>::Done(
            Ok(user),
        )),
        step matches Step::Done(Ok(user)) ==> state is Reloading && reply == StoreReply::Found(user),
{
}

/// For an `Authorization` header of `Bearer ` and a token, with a signing
/// secret available, the whole token, whatever characters it holds, is
/// handed on to be decoded; without a secret the answer is `500`.
pub proof fn lemma_bearer_token_is_decoded(token: Seq<char>)
    ensures
        header_check(Some(seq!['B', 'e', 'a', 'r', 'e', 'r', ' '] + token), true) == Ok::<Seq<char>, u16>(token),
        header_check(Some(seq!['B', 'e', 'a', 'r', 'e', 'r', ' '] + token), false) == Err::<Seq<char>, u16>(500),
{
    let header = seq!['B', 'e', 'a', 'r', 'e', 'r', ' '] + token;
    assert(crate::token::bearer_prefix().is_prefix_of(header)) by {
        assert(header.subrange(0, 7) =~= crate::token::bearer_prefix());
    }
    assert(header.skip(7) =~= token);
}

/// A request without an `Authorization` header, or whose header does not
/// begin with `Bearer `, is refused with `401`, with or without a secret.
pub proof fn lemma_header_without_bearer_is_unauthorized(header: Seq<char>, secret_available: bool)
    requires
        !(header.len() >= 7 && header.subrange(0, 7) == seq!['B', 'e', 'a', 'r', 'e', 'r', ' ']),
    ensures
        header_check(None, secret_available) == Err::<Seq<char>, u16>(401),
        header_check(Some(header), secret_available) == Err::<Seq<char>, u16>(401),
{
    assert(!crate::token::bearer_prefix().is_prefix_of(header)) by {
        if crate::token::bearer_prefix().is_prefix_of(header) {
            assert(header.subrange(0, 7) =~= seq!['B', 'e', 'a', 'r', 'e', 'r', ' ']);
        }
    }
}

/// Decoded claims authenticate their subject; a token that does not decode is `401`.
pub proof fn lemma_claims_authenticate_their_subject(claims: Claims)
    ensures
        authenticated(Some(claims)) == Ok::<AuthenticatedUser, Status>(AuthenticatedUser { user_id: claims.sub }),
        authenticated(None) == Err::<AuthenticatedUser, Status>(Status { code: 401 }),
{
}

/// For every user, a clock reading `secs` seconds after the epoch that
/// leaves an hour on chrono's calendar gives claims naming that user and
/// expiring an hour after the reading; a clock before the epoch, or too
/// near the calendar's end, gives none.
pub proof fn lemma_claims_at_a_reading(user_id: i32, secs: u64)
    ensures
        secs + 3600 <= MAX_TIMESTAMP ==> claims_at_reading(user_id, Some(secs)) == Some(
            Claims { sub: user_id, exp: (secs + 3600) as usize },
        ),
        secs + 3600 > MAX_TIMESTAMP ==> claims_at_reading(user_id, Some(secs)) is None,
        claims_at_reading(user_id, None) is None,
{
}

/// A user is shown with its own id, username and email, not another's or
/// swapped, and with its creation and update times in that order.
pub proof fn lemma_shown_user(response: UserResponse, user: User)
    requires
        shows(response, user),
    ensures
        response.id == user.id,
        response.username@ == user.username@,
        response.email@ == user.email@,
        naive_datetime_text(user.created_at@.0, user.created_at@.1) == Some(response.created_at@),
        naive_datetime_text(user.updated_at@.0, user.updated_at@.1) == Some(response.updated_at@),
{
}

/// The white space that a blank field may hold is exactly Unicode's
/// `White_Space` set; letters, digits and punctuation are never white space.
pub proof fn lemma_white_space_set(c: char)
    ensures
        is_white_space(c) <==> {
            let v = c as u32;
            ||| 0x9 <= v <= 0xD
            ||| v == 0x20
            ||| v == 0x85
            ||| v == 0xA0
            ||| v == 0x1680
            ||| 0x2000 <= v <= 0x200A
            ||| v == 0x2028
            ||| v == 0x2029
            ||| v == 0x202F
            ||| v == 0x205F
            ||| v == 0x3000
        },
        0x21 <= (c as u32) <= 0x7E ==> !is_white_space(c),
{
}

/// A timestamp is accepted exactly when its second lies within chrono's
/// calendar, from the first second of the year -262143 to the last of the
/// year 262142, and its fraction is below one second.
pub proof fn lemma_timestamp_range(secs: i64, nanos: u32)
    ensures
        timestamp_in_range(secs, nanos) <==> (-8334601228800 <= secs <= 8210266876799 && nanos
            < 1_000_000_000),
        MIN_TIMESTAMP == -8334601228800,
        MAX_TIMESTAMP == 8210266876799,
{
}

} // verus!
