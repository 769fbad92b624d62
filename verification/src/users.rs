//! Passwords of the file browser's users: hashing a new one, and holding a
//! given one against a stored hash.

use vstd::prelude::*;
use crate::models::User;

verus! {

/// The error type of the bcrypt crate.
#[verifier::external_type_specification]
#[verifier::external_body]
pub struct ExBcryptError(bcrypt::BcryptError);

/// Why a password was not hashed or not checked.
#[derive(Debug, Clone, Copy, PartialEq, Eq, Structural)]
pub enum PasswordError {
    /// The password could not be hashed.
    Hashing,
    /// The stored hash is not one that a password can be held against.
    BadHash,
}

impl PasswordError {
    /// The reason in words, for the user to read.
    pub open spec fn spec_message(self) -> Seq<char> {
        match self {
            PasswordError::Hashing => "The password could not be hashed"@,
            PasswordError::BadHash => "The stored hash could not be read"@,
        }
    }

    /// The reason in words, for the user to read.
    pub fn message(self) -> (text: &'static str)
        ensures
            text@ == self.spec_message(),
    {
        match self {
            PasswordError::Hashing => "The password could not be hashed",
            PasswordError::BadHash => "The stored hash could not be read",
        }
    }
}

/// What `bcrypt::verify` makes of `password` and `hash`: whether the hash is
/// that of the password, or `None` where it reports an error.
pub uninterp spec fn bcrypt_verifies(password: Seq<char>, hash: Seq<char>) -> Option<bool>;

/// Hashes `password` with `bcrypt::hash` at `bcrypt::DEFAULT_COST`. The salt
/// is random, so which hash comes back is left open. Whichever it is, it
/// names its cost and its salt, and `bcrypt::verify` hashes the password
/// again with the two and compares: the password checks out against it.
#[verifier::external_body]
fn bcrypt_hash(password: &str) -> (hashed: Result<String, bcrypt::BcryptError>)
    ensures
        hashed matches Ok(hash) ==> bcrypt_verifies(password@, hash@) == Some(true),
{
    bcrypt::hash(password, bcrypt::DEFAULT_COST)
}

/// Holds `password` against `hash` with `bcrypt::verify`. The answer depends
/// on the two strings alone.
#[verifier::external_body]
fn bcrypt_verify(password: &str, hash: &str) -> (checked: Result<bool, bcrypt::BcryptError>)
    ensures
        match checked {
            Ok(same) => bcrypt_verifies(password@, hash@) == Some(same),
            Err(_) => bcrypt_verifies(password@, hash@) is None,
        },
{
    bcrypt::verify(password, hash)
}

/// The answer to a check that bcrypt ended in `checked`.
pub open spec fn check_answer(checked: Option<bool>) -> Result<bool, PasswordError> {
    match checked {
        Some(same) => Ok(same),
        None => Err(PasswordError::BadHash),
    }
}

/// Hashes `password` for storing: the result is a hash that `password`
/// checks out against. Which one it is depends on a random salt. Fails with
/// `Hashing` where bcrypt does.
pub fn hash_password(password: &str) -> (hashed: Result<String, PasswordError>)
    ensures
        match hashed {
            Ok(hash) => bcrypt_verifies(password@, hash@) == Some(true),
            Err(e) => e == PasswordError::Hashing,
        },
{
    match bcrypt_hash(password) {
        Ok(hash) => Ok(hash),
        Err(_) => Err(PasswordError::Hashing),
    }
}

/// Says whether `hash` is the hash of `password`. Fails with `BadHash` where
/// bcrypt cannot hold a password against `hash`.
pub fn check_password(password: &str, hash: &str) -> (checked: Result<bool, PasswordError>)
    ensures
        checked == check_answer(bcrypt_verifies(password@, hash@)),
{
    match bcrypt_verify(password, hash) {
        Ok(same) => Ok(same),
        Err(_) => Err(PasswordError::BadHash),
    }
}

/// The user to store for someone who signs up as `username` with
/// `password`: the name, and the password hashed.
pub fn sign_up(username: String, password: &str) -> (user: Result<User, PasswordError>)
    ensures
        match user {
            Ok(u) => u.username == username,
            Err(e) => e == PasswordError::Hashing,
        },
{
    match hash_password(password) {
        Ok(hash) => Ok(User { username, hash }),
        Err(e) => Err(e),
    }
}

} // verus!
