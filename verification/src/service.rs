//! The account service. Each operation is a conversation with the user
//! store: the service asks for one store operation at a time, and is handed
//! back what the store answered, until it reaches a result.
use vstd::prelude::*;
use crate::error::AppError;
use crate::model::{NewUser, UpdateUser, User};
use crate::password::{default_cost_hash_form, hash_accepts, hash_password, verify_password};
use crate::text::{blank, byte_len, is_blank, opt_text, text_byte_len};

verus! {

/// An operation on the user store.
#[derive(Debug)]
pub enum StoreRequest {
    /// The user with this email.
    FindByEmail(String),
    /// The user with this id.
    FindById(i32),
    /// Every user.
    FindAll,
    /// Insert this row and return the user it became.
    Create(NewUser),
    /// Write these columns of the user with this id; answers the rows written.
    Update(i32, UpdateUser),
    /// Delete the user with this id; answers the rows deleted.
    Delete(i32),
}

/// What the user store answered.
#[derive(Debug)]
pub enum StoreReply {
    /// A lookup or an insert gave this user.
    Found(User),
    /// A lookup found no row.
    NotFound,
    /// A listing of the users.
    All(Vec<User>),
    /// A write touched this many rows.
    Affected(usize),
    /// The store failed.
    Failed,
}

/// Where an operation stands: it asks the store for something and waits in
/// state `S`, or it is done.
#[derive(Debug)]
pub enum Step<S, T> {
    Ask(S, StoreRequest),
    Done(Result<T, AppError>),
}

/// A login waits for the user with the given email.
#[derive(Debug)]
pub struct LoginState {
    pub password: String,
}

/// Where a registration stands.
#[derive(Debug)]
pub enum RegisterState {
    /// Waiting to learn whether the email is taken.
    CheckingEmail { username: String, email: String, password: String },
    /// Waiting for the new user to be written.
    Creating,
}

/// Where an update stands.
#[derive(Debug)]
pub enum UpdateState {
    /// Waiting to learn whether the user exists.
    Checking { user_id: i32, changes: UpdateUser },
    /// Waiting for the changes to be written.
    Applying { user_id: i32 },
    /// Waiting for the user as it now stands.
    Reloading,
}

/// The account operations.
#[derive(Debug)]
pub struct UserService;

/// The view of an optional string.
pub open spec fn opt_string(s: Option<String>) -> Option<Seq<char>> {
    match s {
        Some(t) => Some(t@),
        None => None,
    }
}

/// Registration input is refused when a field is blank or the password is
/// shorter than six bytes.
pub open spec fn registration_invalid(username: Seq<char>, email: Seq<char>, password: Seq<char>) -> bool {
    ||| is_blank(username)
    ||| is_blank(email)
    ||| is_blank(password)
    ||| byte_len(password) < 6
}

/// An update is refused when it changes nothing or sets a blank field.
pub open spec fn update_invalid(username: Option<Seq<char>>, email: Option<Seq<char>>) -> bool {
    ||| (username is None && email is None)
    ||| (username matches Some(u) && is_blank(u))
    ||| (email matches Some(e) && is_blank(e))
}

/// The row that registering `username`, `email` and `password` writes: the
/// given username and email, and a bcrypt hash at the default cost that
/// accepts the password.
pub open spec fn registration_row(row: NewUser, username: Seq<char>, email: Seq<char>, password: Seq<char>) -> bool {
    &&& row.username@ == username
    &&& row.email@ == email
    &&& hash_accepts(password, row.password_hash@)
    &&& default_cost_hash_form(row.password_hash@)
}

/// What a login with `password` answers once the store has found `user`.
pub open spec fn login_outcome(password: Seq<char>, user: User) -> Result<User, AppError> {
    if hash_accepts(password, user.password_hash@) {
        Ok(user)
    } else {
        Err(AppError::AuthenticationError)
    }
}

/// How many store requests a registration in `state` can still make.
pub open spec fn register_asks_left(state: RegisterState) -> nat {
    match state {
        RegisterState::CheckingEmail { .. } => 2,
        RegisterState::Creating => 1,
    }
}

/// How many store requests an update in `state` can still make.
pub open spec fn update_asks_left(state: UpdateState) -> nat {
    match state {
        UpdateState::Checking { .. } => 3,
        UpdateState::Applying { .. } => 2,
        UpdateState::Reloading => 1,
    }
}

/// How a registration goes on from `state` once the store has answered `reply`.
pub open spec fn register_resumes(state: RegisterState, reply: StoreReply, step: Step<RegisterState, User>) -> bool {
    match state {
        RegisterState::CheckingEmail { username, email, password } => match reply {
            StoreReply::Found(_) => step == Step::<RegisterState, User>::Done(Err(AppError::UserAlreadyExists)),
            StoreReply::NotFound => {
                ||| step == Step::<RegisterState, User>::Done(Err(AppError::PasswordHashError))
                ||| (step matches Step::Ask(RegisterState::Creating, StoreRequest::Create(row))
                    && registration_row(row, username@, email@, password@))
            },
            _ => step == Step::<RegisterState, User>::Done(Err(AppError::DatabaseError)),
        },
        RegisterState::Creating => match reply {
            StoreReply::Found(user) => step == Step::<RegisterState, User>::Done(Ok(user)),
            _ => step == Step::<RegisterState, User>::Done(Err(AppError::DatabaseError)),
        },
    }
}

/// How an update goes on from `state` once the store has answered `reply`.
pub open spec fn update_resumes(state: UpdateState, reply: StoreReply, step: Step<UpdateState, User>) -> bool {
    match state {
        UpdateState::Checking { user_id, changes } => match reply {
            StoreReply::Found(_) => step == Step::<UpdateState, User>::Ask(
                UpdateState::Applying { user_id },
                StoreRequest::Update(user_id, changes),
            ),
            StoreReply::NotFound => step == Step::<UpdateState, User>::Done(Err(AppError::UserNotFound)),
            _ => step == Step::<UpdateState, User>::Done(Err(AppError::DatabaseError)),
        },
        UpdateState::Applying { user_id } => match reply {
            StoreReply::Affected(_) => step == Step::<UpdateState, User>::Ask(
                UpdateState::Reloading,
                StoreRequest::FindById(user_id),
            ),
            _ => step == Step::<UpdateState, User>::Done(Err(AppError::DatabaseError)),
        },
        UpdateState::Reloading => match reply {
            StoreReply::Found(user) => step == Step::<UpdateState, User>::Done(Ok(user)),
            _ => step == Step::<UpdateState, User>::Done(Err(AppError::DatabaseError)),
        },
    }
}

/// How a login begins: it asks for the user with the given email, and
/// keeps the password.
pub open spec fn login_begins(password: Seq<char>, email: Seq<char>, step: Step<LoginState, User>) -> bool {
    step matches Step::Ask(state, StoreRequest::FindByEmail(e)) && state.password@ == password && e@ == email
}

/// What a login answers once the store has answered its lookup.
pub open spec fn login_ends(state: LoginState, reply: StoreReply) -> Result<User, AppError> {
    match reply {
        StoreReply::Found(user) => login_outcome(state.password@, user),
        StoreReply::NotFound => Err(AppError::UserNotFound),
        _ => Err(AppError::DatabaseError),
    }
}

/// How a registration begins: invalid input is refused at once, valid
/// input asks whether the email is taken.
pub open spec fn register_begins(
    username: Seq<char>,
    email: Seq<char>,
    password: Seq<char>,
    step: Step<RegisterState, User>,
) -> bool {
    if registration_invalid(username, email, password) {
        step == Step::<RegisterState, User>::Done(Err(AppError::ValidationError))
    } else {
        step matches Step::Ask(
            RegisterState::CheckingEmail { username: u, email: e, password: p },
            StoreRequest::FindByEmail(q),
        ) && u@ == username && e@ == email && p@ == password && q@ == email
    }
}

/// What a listing answers once the store has answered.
pub open spec fn listing_ends(reply: StoreReply) -> Result<Vec<User>, AppError> {
    match reply {
        StoreReply::All(users) => Ok(users),
        _ => Err(AppError::DatabaseError),
    }
}

/// What a lookup by id answers once the store has answered.
pub open spec fn lookup_ends(reply: StoreReply) -> Result<User, AppError> {
    match reply {
        StoreReply::Found(user) => Ok(user),
        StoreReply::NotFound => Err(AppError::UserNotFound),
        _ => Err(AppError::DatabaseError),
    }
}

/// What a deletion answers once the store has answered.
pub open spec fn delete_ends(reply: StoreReply) -> Result<(), AppError> {
    match reply {
        StoreReply::Affected(n) => if n == 0 {
            Err(AppError::UserNotFound)
        } else {
            Ok(())
        },
        _ => Err(AppError::DatabaseError),
    }
}

/// How an update begins: an update that changes nothing or blanks a field
/// is refused at once; any other asks whether the user exists, carrying
/// exactly the given fields as its changes.
pub open spec fn update_begins(
    user_id: i32,
    username: Option<Seq<char>>,
    email: Option<Seq<char>>,
    step: Step<UpdateState, User>,
) -> bool {
    if update_invalid(username, email) {
        step == Step::<UpdateState, User>::Done(Err(AppError::ValidationError))
    } else {
        step matches Step::Ask(UpdateState::Checking { user_id: i, changes }, StoreRequest::FindById(j))
            && i == user_id && j == user_id && opt_string(changes.username) == username
            && opt_string(changes.email) == email
    }
}

impl UserService {
    /// Starts a login: look the user up by email.
    pub fn login(password: &str, email: &str) -> (step: Step<LoginState, User>)
        ensures
            login_begins(password@, email@, step),
    {
        Step::Ask(LoginState { password: password.to_owned() }, StoreRequest::FindByEmail(email.to_owned()))
    }

    /// Goes on with a login: an unknown email is `UserNotFound`, a failure of
    /// the store `DatabaseError`, and a found user is checked against the password.
    pub fn login_resume(state: LoginState, reply: StoreReply) -> (step: Step<LoginState, User>)
        ensures
            step == Step::<LoginState, User>::Done(login_ends(state, reply)),
    {
        match reply {
            StoreReply::Found(user) => {
                let verdict = verify_password(state.password.as_str(), user.password_hash.as_str());
                Step::Done(Self::login_checked(user, verdict))
            },
            StoreReply::NotFound => Step::Done(Err(AppError::UserNotFound)),
            _ => Step::Done(Err(AppError::DatabaseError)),
        }
    }

    /// Decides a login from bcrypt's verdict on the password: only a match
    /// admits the user; a mismatch or an unreadable hash is an `AuthenticationError`.
    pub fn login_checked(user: User, verdict: Option<bool>) -> (r: Result<User, AppError>)
        ensures
            r == (if verdict == Some(true) {
                Ok::<User, AppError>(user)
            } else {
                Err(AppError::AuthenticationError)
            }),
    {
        match verdict {
            Some(true) => Ok(user),
            _ => Err(AppError::AuthenticationError),
        }
    }

    /// Starts a registration: refuse invalid input, else ask whether the
    /// email is taken.
    pub fn register(username: &str, email: &str, password: &str) -> (step: Step<RegisterState, User>)
        ensures
            register_begins(username@, email@, password@, step),
    {
        if blank(username) || blank(email) || blank(password) {
            return Step::Done(Err(AppError::ValidationError));
        }
        if text_byte_len(password) < 6 {
            return Step::Done(Err(AppError::ValidationError));
        }
        Step::Ask(
            RegisterState::CheckingEmail {
                username: username.to_owned(),
                email: email.to_owned(),
                password: password.to_owned(),
            },
            StoreRequest::FindByEmail(email.to_owned()),
        )
    }

    /// Goes on with a registration: a taken email is `UserAlreadyExists`; a
    /// free one has the password hashed and the user written; the written
    /// user is the result; a failure of the store is a `DatabaseError`.
    pub fn register_resume(state: RegisterState, reply: StoreReply) -> (step: Step<RegisterState, User>)
        ensures
            register_resumes(state, reply, step),
            step matches Step::Ask(next, _) ==> register_asks_left(next) < register_asks_left(state),
    {
        match state {
            RegisterState::CheckingEmail { username, email, password } => match reply {
                StoreReply::Found(_) => Step::Done(Err(AppError::UserAlreadyExists)),
                StoreReply::NotFound => {
                    let hashed = hash_password(password.as_str());
                    Self::register_hashed(username, email, hashed)
                },
                _ => Step::Done(Err(AppError::DatabaseError)),
            },
            RegisterState::Creating => match reply {
                StoreReply::Found(user) => Step::Done(Ok(user)),
                _ => Step::Done(Err(AppError::DatabaseError)),
            },
        }
    }

    /// Goes on with a registration once the password is hashed: write the
    /// user with that hash, or fail with `PasswordHashError`.
    pub fn register_hashed(username: String, email: String, hashed: Result<String, AppError>) -> (step: Step<RegisterState, User>)
        ensures
            hashed is Err ==> step == Step::<RegisterState, User>::Done(Err(AppError::PasswordHashError)),
            hashed matches Ok(h) ==> (step matches Step::Ask(RegisterState::Creating, StoreRequest::Create(row))
                && row.username@ == username@ && row.email@ == email@ && row.password_hash@ == h@),
    {
        match hashed {
            Ok(password_hash) => Step::Ask(
                RegisterState::Creating,
                StoreRequest::Create(NewUser { username, email, password_hash }),
            ),
            Err(_) => Step::Done(Err(AppError::PasswordHashError)),
        }
    }

    /// Starts a listing of every user.
    pub fn get_all() -> (step: Step<(), Vec<User>>)
        ensures
            step == Step::<(), Vec<User>>::Ask((), StoreRequest::FindAll),
    {
        Step::Ask((), StoreRequest::FindAll)
    }

    /// Finishes a listing: the users, or `DatabaseError`.
    pub fn get_all_resume(state: (), reply: StoreReply) -> (step: Step<(), Vec<User>>)
        ensures
            step == Step::<(), Vec<User>>::Done(listing_ends(reply)),
    {
        match reply {
            StoreReply::All(users) => Step::Done(Ok(users)),
            _ => Step::Done(Err(AppError::DatabaseError)),
        }
    }

    /// Starts a lookup of the user with id `user_id`.
    pub fn get_by_id(user_id: i32) -> (step: Step<(), User>)
        ensures
            step == Step::<(), User>::Ask((), StoreRequest::FindById(user_id)),
    {
        Step::Ask((), StoreRequest::FindById(user_id))
    }

    /// Finishes a lookup: the user, `UserNotFound`, or `DatabaseError`.
    pub fn get_by_id_resume(state: (), reply: StoreReply) -> (step: Step<(), User>)
        ensures
            step == Step::<(), User>::Done(lookup_ends(reply)),
    {
        match reply {
            StoreReply::Found(user) => Step::Done(Ok(user)),
            StoreReply::NotFound => Step::Done(Err(AppError::UserNotFound)),
            _ => Step::Done(Err(AppError::DatabaseError)),
        }
    }

    /// Starts deleting the user with id `user_id`.
    pub fn delete(user_id: i32) -> (step: Step<(), ()>)
        ensures
            step == Step::<(), ()>::Ask((), StoreRequest::Delete(user_id)),
    {
        Step::Ask((), StoreRequest::Delete(user_id))
    }

    /// Finishes a deletion: no row deleted is `UserNotFound`, a failure of
    /// the store `DatabaseError`.
    pub fn delete_resume(state: (), reply: StoreReply) -> (step: Step<(), ()>)
        ensures
            step == Step::<(), ()>::Done(delete_ends(reply)),
    {
        match reply {
            StoreReply::Affected(n) => if n == 0 {
                Step::Done(Err(AppError::UserNotFound))
            } else {
                Step::Done(Ok(()))
            },
            _ => Step::Done(Err(AppError::DatabaseError)),
        }
    }

    /// Starts an update of the user with id `user_id`: refuse an update that
    /// changes nothing or sets a blank field, else ask whether the user exists.
    pub fn update(user_id: i32, username: Option<&str>, email: Option<&str>) -> (step: Step<UpdateState, User>)
        ensures
            update_begins(user_id, opt_text(username), opt_text(email), step),
    {
        if username.is_none() && email.is_none() {
            return Step::Done(Err(AppError::ValidationError));
        }
        if let Some(name) = username {
            if blank(name) {
                return Step::Done(Err(AppError::ValidationError));
            }
        }
        if let Some(address) = email {
            if blank(address) {
                return Step::Done(Err(AppError::ValidationError));
            }
        }
        let new_username = match username {
            Some(name) => Some(name.to_owned()),
            None => None,
        };
        let new_email = match email {
            Some(address) => Some(address.to_owned()),
            None => None,
        };
        Step::Ask(
            UpdateState::Checking { user_id, changes: UpdateUser { username: new_username, email: new_email } },
            StoreRequest::FindById(user_id),
        )
    }

    /// Goes on with an update: a missing user is `UserNotFound`; an existing
    /// one has the changes written and is then read back; any other failure
    /// of the store is a `DatabaseError`.
    pub fn update_resume(state: UpdateState, reply: StoreReply) -> (step: Step<UpdateState, User>)
        ensures
            update_resumes(state, reply, step),
            step matches Step::Ask(next, _) ==> update_asks_left(next) < update_asks_left(state),
    {
        match state {
            UpdateState::Checking { user_id, changes } => match reply {
                StoreReply::Found(_) => Step::Ask(
                    UpdateState::Applying { user_id },
                    StoreRequest::Update(user_id, changes),
                ),
                StoreReply::NotFound => Step::Done(Err(AppError::UserNotFound)),
                _ => Step::Done(Err(AppError::DatabaseError)),
            },
            UpdateState::Applying { user_id } => match reply {
                StoreReply::Affected(_) => Step::Ask(UpdateState::Reloading, StoreRequest::FindById(user_id)),
                _ => Step::Done(Err(AppError::DatabaseError)),
            },
            UpdateState::Reloading => match reply {
                StoreReply::Found(user) => Step::Done(Ok(user)),
                _ => Step::Done(Err(AppError::DatabaseError)),
            },
        }
    }
}


/// A password that registration accepted logs in: when the store hands a
/// login the row that registration wrote (the same password hash), a login
/// with the same password admits that user.
pub proof fn lemma_registered_password_logs_in(
    username: Seq<char>,
    email: Seq<char>,
    password: Seq<char>,
    row: NewUser,
    stored: User,
)
    requires
        registration_row(row, username, email, password),
        stored.password_hash@ == row.password_hash@,
    ensures
        login_outcome(password, stored) == Ok::<User, AppError>(stored),
{
}

/// A password that the stored hash does not accept never logs in.
pub proof fn lemma_refused_password_fails(password: Seq<char>, user: User)
    requires
        !hash_accepts(password, user.password_hash@),
    ensures
        login_outcome(password, user) == Err::<User, AppError>(AppError::AuthenticationError),
{
}

} // verus!
