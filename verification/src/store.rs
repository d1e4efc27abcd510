//! A model of the user store, and the laws of the account service that hold
//! while the store behaves as a table of users that only the service writes.
//!
//! Lookups by email compare emails by a relation `same` (the column's
//! collation); the laws ask of it only that it is reflexive and symmetric.
use vstd::prelude::*;
use crate::error::AppError;
use crate::model::{NewUser, UpdateUser, User};
use crate::service::{
    delete_ends, login_begins, login_ends, opt_string, register_begins, register_resumes,
    registration_row, update_begins, update_invalid, update_resumes, LoginState, RegisterState, Step,
    StoreReply, StoreRequest, UpdateState,
};

verus! {

/// The relation by which the store compares emails is reflexive and symmetric.
pub open spec fn email_relation_ok(same: spec_fn(Seq<char>, Seq<char>) -> bool) -> bool {
    &&& forall|a: Seq<char>| #[trigger] same(a, a)
    &&& forall|a: Seq<char>, b: Seq<char>| #[trigger] same(a, b) ==> same(b, a)
}

/// No two rows of the table hold the same email.
pub open spec fn emails_unique(same: spec_fn(Seq<char>, Seq<char>) -> bool, table: Map<i32, User>) -> bool {
    forall|i: i32, j: i32|
        table.contains_key(i) && table.contains_key(j) && #[trigger] same(table[i].email@, table[j].email@)
            ==> i == j
}

/// Some row of the table holds `email`.
pub open spec fn holds_email(same: spec_fn(Seq<char>, Seq<char>) -> bool, table: Map<i32, User>, email: Seq<char>) -> bool {
    exists|i: i32| table.contains_key(i) && #[trigger] same(table[i].email@, email)
}

/// Every row of the table sits under its own id.
pub open spec fn keyed_by_id(table: Map<i32, User>) -> bool {
    forall|k: i32| table.contains_key(k) ==> #[trigger] table[k].id == k
}

/// `users` lists every row of the table exactly once.
pub open spec fn lists_every_row_once(table: Map<i32, User>, users: Seq<User>) -> bool {
    &&& forall|k: int|
        0 <= k < users.len() ==> table.contains_key(#[trigger] users[k].id) && table[users[k].id] == users[k]
    &&& forall|k: int, l: int| 0 <= k < l < users.len() ==> #[trigger] users[k].id != #[trigger] users[l].id
    &&& forall|id: i32| table.contains_key(id) ==> exists|k: int| 0 <= k < users.len() && #[trigger] users[k].id == id
}

/// `after` is `before` with `user` written from `row` under a fresh id.
pub open spec fn created(before: Map<i32, User>, row: NewUser, after: Map<i32, User>, user: User) -> bool {
    &&& !before.contains_key(user.id)
    &&& user.username@ == row.username@
    &&& user.email@ == row.email@
    &&& user.password_hash@ == row.password_hash@
    &&& after == before.insert(user.id, user)
}

/// `new` is `old` with `changes` written: the given fields replaced, the id,
/// the hash and the creation time kept (the update time is the store's).
pub open spec fn changed(old: User, changes: UpdateUser, new: User) -> bool {
    &&& new.id == old.id
    &&& new.username@ == (match changes.username {
        Some(name) => name@,
        None => old.username@,
    })
    &&& new.email@ == (match changes.email {
        Some(address) => address@,
        None => old.email@,
    })
    &&& new.password_hash@ == old.password_hash@
    &&& new.created_at@ == old.created_at@
}

/// The store, holding the table `before`, answers `request` with `reply`
/// and then holds `after`. A failed insert may still have written its row
/// (the insert and the read-back are separate statements); any other
/// failure leaves the table as it was.
pub open spec fn store_answers(
    same: spec_fn(Seq<char>, Seq<char>) -> bool,
    before: Map<i32, User>,
    request: StoreRequest,
    reply: StoreReply,
    after: Map<i32, User>,
) -> bool {
    match request {
        StoreRequest::FindByEmail(email) => after == before && match reply {
            StoreReply::Found(user) => before.contains_key(user.id) && before[user.id] == user && same(
                user.email@,
                email@,
            ),
            StoreReply::NotFound => !holds_email(same, before, email@),
            StoreReply::Failed => true,
            _ => false,
        },
        StoreRequest::FindById(id) => after == before && match reply {
            StoreReply::Found(user) => before.contains_key(id) && before[id] == user,
            StoreReply::NotFound => !before.contains_key(id),
            StoreReply::Failed => true,
            _ => false,
        },
        StoreRequest::FindAll => after == before && match reply {
            StoreReply::All(users) => lists_every_row_once(before, users@),
            StoreReply::Failed => true,
            _ => false,
        },
        StoreRequest::Create(row) => match reply {
            StoreReply::Found(user) => created(before, row, after, user),
            StoreReply::Failed => after == before || exists|user: User| created(before, row, after, user),
            _ => false,
        },
        StoreRequest::Update(id, changes) => match reply {
            StoreReply::Affected(_) => if before.contains_key(id) {
                exists|user: User| changed(before[id], changes, user) && after == before.insert(id, user)
            } else {
                after == before
            },
            StoreReply::Failed => after == before,
            _ => false,
        },
        StoreRequest::Delete(id) => match reply {
            StoreReply::Affected(n) => after == before.remove(id) && n == (if before.contains_key(id) {
                1usize
            } else {
                0usize
            }),
            StoreReply::Failed => after == before,
            _ => false,
        },
    }
}

/// What a registration that waits in `step` has established of the table:
/// its lookup is of the email it registers, and the row it is about to
/// write holds an email that no row of the table holds.
pub open spec fn register_pending_ok(
    same: spec_fn(Seq<char>, Seq<char>) -> bool,
    table: Map<i32, User>,
    step: Step<RegisterState, User>,
) -> bool {
    match step {
        Step::Ask(RegisterState::CheckingEmail { email, .. }, StoreRequest::FindByEmail(q)) => q@ == email@,
        Step::Ask(RegisterState::Creating, StoreRequest::Create(row)) => !holds_email(same, table, row.email@),
        Step::Ask(_, _) => false,
        Step::Done(_) => true,
    }
}

/// Writing a row under a fresh id keeps emails unique when no row held its email.
proof fn lemma_fresh_row_keeps_emails_unique(
    same: spec_fn(Seq<char>, Seq<char>) -> bool,
    before: Map<i32, User>,
    user: User,
    after: Map<i32, User>,
)
    requires
        email_relation_ok(same),
        emails_unique(same, before),
        !holds_email(same, before, user.email@),
        after == before.insert(user.id, user),
    ensures
        emails_unique(same, after),
{
    assert forall|i: i32, j: i32|
        after.contains_key(i) && after.contains_key(j) && #[trigger] same(after[i].email@, after[j].email@)
        implies i == j by {
        if i != user.id && j == user.id {
            assert(same(before[i].email@, user.email@));
        } else if i == user.id && j != user.id {
            assert(same(user.email@, before[j].email@));
            assert(same(before[j].email@, user.email@));
        }
    }
}

/// A registration begins in a step of which `register_pending_ok` holds.
pub proof fn lemma_register_begins_well(
    same: spec_fn(Seq<char>, Seq<char>) -> bool,
    table: Map<i32, User>,
    username: Seq<char>,
    email: Seq<char>,
    password: Seq<char>,
    step: Step<RegisterState, User>,
)
    requires
        register_begins(username, email, password, step),
    ensures
        register_pending_ok(same, table, step),
{
}

/// Registration keeps emails unique: while no one else writes the table,
/// every step of a registration, whatever the store answers, leaves no two
/// rows with the same email, and keeps `register_pending_ok` for the next step.
pub proof fn lemma_register_step_keeps_emails_unique(
    same: spec_fn(Seq<char>, Seq<char>) -> bool,
    before: Map<i32, User>,
    state: RegisterState,
    request: StoreRequest,
    reply: StoreReply,
    after: Map<i32, User>,
    next: Step<RegisterState, User>,
)
    requires
        email_relation_ok(same),
        emails_unique(same, before),
        register_pending_ok(same, before, Step::Ask(state, request)),
        store_answers(same, before, request, reply, after),
        register_resumes(state, reply, next),
    ensures
        emails_unique(same, after),
        register_pending_ok(same, after, next),
{
    match request {
        StoreRequest::Create(row) => {
            match reply {
                StoreReply::Found(user) => {
                    lemma_fresh_row_keeps_emails_unique(same, before, user, after);
                },
                _ => {
                    if after != before {
                        let user = choose|user: User| created(before, row, after, user);
                        lemma_fresh_row_keeps_emails_unique(same, before, user, after);
                    }
                },
            }
        },
        _ => {},
    }
}

/// A registered user logs in: while no one else writes the table, once a
/// registration has written its row (the store answering its insert with
/// `user`), a login with the same email and password that the store answers
/// at all admits exactly that user.
pub proof fn lemma_registered_user_logs_in(
    same: spec_fn(Seq<char>, Seq<char>) -> bool,
    before: Map<i32, User>,
    row: NewUser,
    user: User,
    after: Map<i32, User>,
    username: Seq<char>,
    email: Seq<char>,
    password: Seq<char>,
    state: LoginState,
    request: StoreRequest,
    reply: StoreReply,
    later: Map<i32, User>,
)
    requires
        email_relation_ok(same),
        emails_unique(same, before),
        register_pending_ok(same, before, Step::Ask(RegisterState::Creating, StoreRequest::Create(row))),
        registration_row(row, username, email, password),
        store_answers(same, before, StoreRequest::Create(row), StoreReply::Found(user), after),
        login_begins(password, email, Step::Ask(state, request)),
        store_answers(same, after, request, reply, later),
        !(reply is Failed),
    ensures
        login_ends(state, reply) == Ok::<User, AppError>(user),
{
    lemma_fresh_row_keeps_emails_unique(same, before, user, after);
    assert(after.contains_key(user.id) && after[user.id] == user);
    assert(same(after[user.id].email@, email));
    match reply {
        StoreReply::Found(found) => {
            assert(same(after[found.id].email@, after[user.id].email@)) by {
                assert(same(found.email@, email));
                assert(same(email, email));
            }
            assert(found.id == user.id);
        },
        _ => {},
    }
}

/// A repeated deletion finds nothing: while no one else writes the table,
/// after a deletion of `id` succeeded, deleting `id` again (where the store
/// answers at all) is `UserNotFound` and leaves the table as it was.
pub proof fn lemma_repeated_delete_finds_nothing(
    same: spec_fn(Seq<char>, Seq<char>) -> bool,
    before: Map<i32, User>,
    id: i32,
    first: StoreReply,
    middle: Map<i32, User>,
    second: StoreReply,
    after: Map<i32, User>,
)
    requires
        store_answers(same, before, StoreRequest::Delete(id), first, middle),
        delete_ends(first) == Ok::<(), AppError>(()),
        store_answers(same, middle, StoreRequest::Delete(id), second, after),
        !(second is Failed),
    ensures
        delete_ends(second) == Err::<(), AppError>(AppError::UserNotFound),
        after == middle,
{
    assert(!middle.contains_key(id));
    assert(after =~= middle);
}

/// An update that went through: its lookup found the user, its write was
/// answered, and its read-back gave `result`, the table going from `before`
/// to `after`. These are the replies on which the update conversation
/// (`update_resumes`) ends with `Ok(result)`.
pub open spec fn update_run(
    same: spec_fn(Seq<char>, Seq<char>) -> bool,
    before: Map<i32, User>,
    user_id: i32,
    changes: UpdateUser,
    result: User,
    after: Map<i32, User>,
) -> bool {
    exists|found: User, written: usize, between: Map<i32, User>|
        #![trigger store_answers(same, before, StoreRequest::FindById(user_id), StoreReply::Found(found), before), store_answers(same, before, StoreRequest::Update(user_id, changes), StoreReply::Affected(written), between)]
        store_answers(same, before, StoreRequest::FindById(user_id), StoreReply::Found(found), before)
            && store_answers(
            same,
            before,
            StoreRequest::Update(user_id, changes),
            StoreReply::Affected(written),
            between,
        ) && store_answers(same, between, StoreRequest::FindById(user_id), StoreReply::Found(result), after)
}

/// What a run of an update writes: the user it reports is the user it read
/// first with the changes written.
proof fn lemma_update_run_writes(
    same: spec_fn(Seq<char>, Seq<char>) -> bool,
    before: Map<i32, User>,
    user_id: i32,
    changes: UpdateUser,
    result: User,
    after: Map<i32, User>,
)
    requires
        update_run(same, before, user_id, changes, result, after),
    ensures
        before.contains_key(user_id),
        changed(before[user_id], changes, result),
        after.contains_key(user_id),
        after[user_id] == result,
{
    let (found, written, between) = choose|found: User, written: usize, between: Map<i32, User>|
        store_answers(same, before, StoreRequest::FindById(user_id), StoreReply::Found(found), before)
            && store_answers(
            same,
            before,
            StoreRequest::Update(user_id, changes),
            StoreReply::Affected(written),
            between,
        ) && store_answers(same, between, StoreRequest::FindById(user_id), StoreReply::Found(result), after);
    let user = choose|user: User| changed(before[user_id], changes, user) && between == before.insert(user_id, user);
    assert(between[user_id] == user);
}

/// Repeating an update changes nothing more: while no one else writes the
/// table, when an update of `user_id` went through with a result `first`, the
/// same update again reports a user with the same id, username, email,
/// password hash and creation time.
pub proof fn lemma_repeated_update_changes_nothing_more(
    same: spec_fn(Seq<char>, Seq<char>) -> bool,
    before: Map<i32, User>,
    user_id: i32,
    changes: UpdateUser,
    first: User,
    middle: Map<i32, User>,
    again: UpdateUser,
    second: User,
    after: Map<i32, User>,
)
    requires
        update_run(same, before, user_id, changes, first, middle),
        update_run(same, middle, user_id, again, second, after),
        opt_string(again.username) == opt_string(changes.username),
        opt_string(again.email) == opt_string(changes.email),
    ensures
        second.id == first.id,
        second.username@ == first.username@,
        second.email@ == first.email@,
        second.password_hash@ == first.password_hash@,
        second.created_at@ == first.created_at@,
{
    lemma_update_run_writes(same, before, user_id, changes, first, middle);
    lemma_update_run_writes(same, middle, user_id, again, second, after);
}


/// Every answer of the store keeps each row under its own id.
pub proof fn lemma_store_keeps_rows_keyed(
    same: spec_fn(Seq<char>, Seq<char>) -> bool,
    before: Map<i32, User>,
    request: StoreRequest,
    reply: StoreReply,
    after: Map<i32, User>,
)
    requires
        keyed_by_id(before),
        store_answers(same, before, request, reply, after),
    ensures
        keyed_by_id(after),
{
    match request {
        StoreRequest::Create(row) => {
            if !(reply is Found) && after != before {
                let user = choose|user: User| created(before, row, after, user);
                assert(after == before.insert(user.id, user));
            }
        },
        StoreRequest::Update(id, changes) => {
            if reply is Affected && before.contains_key(id) {
                let user = choose|user: User| changed(before[id], changes, user) && after == before.insert(id, user);
                assert(user.id == id);
            }
        },
        _ => {},
    }
}

/// A lookup by id in a table keyed by id gives the user with that id.
pub proof fn lemma_lookup_by_id_gives_that_id(
    same: spec_fn(Seq<char>, Seq<char>) -> bool,
    before: Map<i32, User>,
    user_id: i32,
    user: User,
    after: Map<i32, User>,
)
    requires
        keyed_by_id(before),
        store_answers(same, before, StoreRequest::FindById(user_id), StoreReply::Found(user), after),
    ensures
        user.id == user_id,
{
}

/// A listing that the store answers gives every user of the table, each
/// exactly once, and `get_all_resume` hands that listing on.
pub proof fn lemma_listing_gives_every_user_once(
    same: spec_fn(Seq<char>, Seq<char>) -> bool,
    before: Map<i32, User>,
    reply: StoreReply,
    after: Map<i32, User>,
)
    requires
        store_answers(same, before, StoreRequest::FindAll, reply, after),
        !(reply is Failed),
    ensures
        reply matches StoreReply::All(users) && lists_every_row_once(before, users@),
        after == before,
{
}

/// An update that went through, in a table keyed by id, reports the user
/// with the id it was asked to update.
pub proof fn lemma_updated_user_keeps_its_id(
    same: spec_fn(Seq<char>, Seq<char>) -> bool,
    before: Map<i32, User>,
    user_id: i32,
    changes: UpdateUser,
    result: User,
    after: Map<i32, User>,
)
    requires
        keyed_by_id(before),
        update_run(same, before, user_id, changes, result, after),
    ensures
        result.id == user_id,
{
    lemma_update_run_writes(same, before, user_id, changes, result, after);
}

/// Repeating an update that went through completes: while no one else
/// writes the table, the same update again, with each of its store requests
/// answered (none failing), ends with `Ok(second)`, a user with the same id,
/// username, email, password hash and creation time as the first result.
pub proof fn lemma_repeated_update_completes(
    same: spec_fn(Seq<char>, Seq<char>) -> bool,
    before: Map<i32, User>,
    user_id: i32,
    username: Option<Seq<char>>,
    email: Option<Seq<char>>,
    changes: UpdateUser,
    first: User,
    middle: Map<i32, User>,
    start: Step<UpdateState, User>,
    found: StoreReply,
    step1: Step<UpdateState, User>,
    written: StoreReply,
    between: Map<i32, User>,
    step2: Step<UpdateState, User>,
    reread: StoreReply,
    after: Map<i32, User>,
    step3: Step<UpdateState, User>,
)
    requires
        update_begins(
            user_id,
            username,
            email,
            Step::Ask(UpdateState::Checking { user_id, changes }, StoreRequest::FindById(user_id)),
        ),
        update_run(same, before, user_id, changes, first, middle),
        update_begins(user_id, username, email, start),
        start matches Step::Ask(s0, q0) ==> store_answers(same, middle, q0, found, middle) && !(found is Failed)
            && update_resumes(s0, found, step1),
        step1 matches Step::Ask(s1, q1) ==> store_answers(same, middle, q1, written, between) && !(
        written is Failed) && update_resumes(s1, written, step2),
        step2 matches Step::Ask(s2, q2) ==> store_answers(same, between, q2, reread, after) && !(
        reread is Failed) && update_resumes(s2, reread, step3),
    ensures
        step3 matches Step::Done(Ok(second)) && second.id == first.id && second.username@ == first.username@
            && second.email@ == first.email@ && second.password_hash@ == first.password_hash@
            && second.created_at@ == first.created_at@,
{
    lemma_update_run_writes(same, before, user_id, changes, first, middle);
    assert(!update_invalid(username, email));
    let again = match start {
        Step::Ask(UpdateState::Checking { changes: c, .. }, _) => c,
        _ => changes,
    };
    assert(start == Step::<UpdateState, User>::Ask(
        UpdateState::Checking { user_id, changes: again },
        StoreRequest::FindById(user_id),
    ));
    assert(found is Found);
    assert(step1 == Step::<UpdateState, User>::Ask(
        UpdateState::Applying { user_id },
        StoreRequest::Update(user_id, again),
    ));
    assert(written is Affected);
    let user = choose|user: User| changed(middle[user_id], again, user) && between == middle.insert(user_id, user);
    assert(step2 == Step::<UpdateState, User>::Ask(UpdateState::Reloading, StoreRequest::FindById(user_id)));
    assert(between[user_id] == user);
    assert(reread == StoreReply::Found(user));
}

} // verus!
