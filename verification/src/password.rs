//! Password hashing and checking with bcrypt.
use vstd::prelude::*;
use crate::error::AppError;

verus! {

#[verifier::external_type_specification]
#[verifier::external_body]
pub struct ExBcryptError(bcrypt::BcryptError);

/// What `bcrypt::verify` answers for `password` against the stored `hash`:
/// `Some(b)` where it returns `Ok(b)`, `None` where it returns an error.
pub uninterp spec fn bcrypt_verdict(password: Seq<char>, hash: Seq<char>) -> Option<bool>;

/// A stored hash accepts a password when bcrypt's check of the password
/// against it returns `Ok(true)`.
pub open spec fn hash_accepts(password: Seq<char>, hash: Seq<char>) -> bool {
    bcrypt_verdict(password, hash) == Some(true)
}

/// The form of every hash that `bcrypt::hash` makes at its default cost:
/// `$2b$12$`, then 22 characters of salt and 31 of digest, 60 in all.
pub open spec fn default_cost_hash_form(hash: Seq<char>) -> bool {
    &&& hash.len() == 60
    &&& hash.subrange(0, 7) == seq!['$', '2', 'b', '$', '1', '2', '$']
}

/// Calls `bcrypt::verify(password, hash)` on the UTF-8 bytes of the password.
/// Claimed: the answer is the named result `bcrypt_verdict` of the two texts,
/// an error mapping to `None`.
#[verifier::external_body]
fn bcrypt_verify(password: &str, hash: &str) -> (r: Result<bool, bcrypt::BcryptError>)
    ensures
        bcrypt_verdict(password@, hash@) == (match r {
            Ok(b) => Some(b),
            Err(_) => None::<bool>,
        }),
{
    bcrypt::verify(password, hash)
}

/// Calls `bcrypt::hash(password, bcrypt::DEFAULT_COST)`, which draws a fresh
/// random salt. Claimed: a hash it returns is one that `bcrypt::verify`
/// accepts for the same password (the hash holds the cost and the salt, and
/// `verify` recomputes the digest from them, truncating the password as
/// `hash` does), and it has the form `$2b$12$` + salt + digest that
/// `HashParts::format` writes. Which hash comes back, and whether the draw of the salt
/// fails, is left unsaid: it rests on the operating system's randomness.
#[verifier::external_body]
fn bcrypt_hash(password: &str) -> (r: Result<String, bcrypt::BcryptError>)
    ensures
        r matches Ok(h) ==> bcrypt_verdict(password@, h@) == Some(true),
        r matches Ok(h) ==> default_cost_hash_form(h@),
{
    bcrypt::hash(password, bcrypt::DEFAULT_COST)
}

/// Checks `password` against a stored bcrypt `hash`: `Some(true)` when it
/// matches, `Some(false)` when it does not, `None` when the hash cannot be read.
pub fn verify_password(password: &str, hash: &str) -> (r: Option<bool>)
    ensures
        r == bcrypt_verdict(password@, hash@),
{
    match bcrypt_verify(password, hash) {
        Ok(b) => Some(b),
        Err(_) => None,
    }
}

/// Hashes `password` with bcrypt at its default cost and a fresh salt; a
/// failure of bcrypt is a `PasswordHashError`.
pub fn hash_password(password: &str) -> (r: Result<String, AppError>)
    ensures
        r matches Ok(h) ==> hash_accepts(password@, h@),
        r matches Ok(h) ==> default_cost_hash_form(h@),
        r matches Err(e) ==> e == AppError::PasswordHashError,
{
    match bcrypt_hash(password) {
        Ok(h) => Ok(h),
        Err(_) => Err(AppError::PasswordHashError),
    }
}

} // verus!
