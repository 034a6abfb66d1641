//! Checking a login against the stored password hash, and hashing the
//! password of a new user. Both go through the `bcrypt` crate.

use vstd::prelude::*;
use vstd::string::*;
use crate::auth::{RegisterDTO, SafeUser, User, safe_view};

verus! {

#[verifier::external_type_specification]
#[verifier::external_body]
pub struct ExBcryptError(bcrypt::BcryptError);

/// What `bcrypt` answers when asked whether a password matches a stored
/// hash: `None` where the hash cannot be read.
pub uninterp spec fn bcrypt_verdict(password: Seq<char>, hash: Seq<char>) -> Option<bool>;

/// Relies on `bcrypt::verify`, which reads the cost and salt recorded in
/// `hash`, hashes `password` with them and compares; it fails where `hash`
/// cannot be read, and draws no randomness.
#[verifier::external_body]
fn verify_password(password: &str, hash: &str) -> (r: Result<bool, bcrypt::BcryptError>)
    ensures
        match r {
            Ok(b) => bcrypt_verdict(password@, hash@) == Some(b),
            Err(_) => bcrypt_verdict(password@, hash@) is None,
        },
{
    bcrypt::verify(password, hash)
}

/// Relies on `bcrypt::hash` at the crate's default cost. The salt is drawn
/// at random, so nothing is known of the result.
#[verifier::external_body]
fn hash_password(password: &str) -> (r: Result<String, bcrypt::BcryptError>) {
    bcrypt::hash(password, bcrypt::DEFAULT_COST)
}

/// Why a login was refused.
#[derive(Debug)]
pub enum LoginError {
    /// No such user, or the wrong password.
    InvalidCredentials,
    /// The stored hash could not be read; the text says why.
    Unverifiable(String),
}

impl LoginError {
    pub fn message(&self) -> (r: String)
        ensures
            self is InvalidCredentials ==> r@ == "Invalid email or password"@,
            self matches LoginError::Unverifiable(t) ==> r@ == t@,
    {
        match self {
            LoginError::InvalidCredentials => String::from_str("Invalid email or password"),
            LoginError::Unverifiable(t) => t.clone(),
        }
    }
}

/// What a login comes to, given the user found for the e-mail address and
/// the outcome of checking the password against that user's hash (an error
/// text where the hash could not be read).
pub fn login_outcome(user: User, verdict: Result<bool, String>) -> (r: Result<SafeUser, LoginError>)
    ensures
        match verdict {
            Ok(true) => r == Ok::<SafeUser, LoginError>(safe_view(user)),
            Ok(false) => r == Err::<SafeUser, LoginError>(LoginError::InvalidCredentials),
            Err(t) => r == Err::<SafeUser, LoginError>(LoginError::Unverifiable(t)),
        },
{
    match verdict {
        Ok(true) => Ok(SafeUser::from(user)),
        Ok(false) => Err(LoginError::InvalidCredentials),
        Err(t) => Err(LoginError::Unverifiable(t)),
    }
}

/// Logs `user` in with `password`: accepted exactly where the password
/// matches the stored hash.
pub fn authenticate(user: User, password: &str) -> (r: Result<SafeUser, LoginError>)
    ensures
        bcrypt_verdict(password@, user.password@) == Some(true) ==> r == Ok::<SafeUser, LoginError>(
            safe_view(user),
        ),
        bcrypt_verdict(password@, user.password@) == Some(false) ==> r == Err::<SafeUser, LoginError>(
            LoginError::InvalidCredentials,
        ),
        bcrypt_verdict(password@, user.password@) is None ==> (r matches Err(LoginError::Unverifiable(_))),
{
    let verdict = match verify_password(password, user.password.as_str()) {
        Ok(b) => Ok(b),
        Err(e) => Err(e.to_string()),
    };
    login_outcome(user, verdict)
}

/// Why a registration was refused before anything was stored.
#[derive(Debug)]
pub enum RegisterError {
    /// The password was not typed the same twice.
    PasswordMismatch,
    /// Hashing failed; the text says why.
    HashFailed(String),
}

impl RegisterError {
    pub fn message(&self) -> (r: String)
        ensures
            self is PasswordMismatch ==> r@ == "Password and confirm password do not match"@,
            self matches RegisterError::HashFailed(t) ==> r@ == t@,
    {
        match self {
            RegisterError::PasswordMismatch => String::from_str("Password and confirm password do not match"),
            RegisterError::HashFailed(t) => t.clone(),
        }
    }
}

/// The hash to store for a new user. Refused, without hashing, where the
/// password was not typed the same twice.
pub fn registration_hash(dto: &RegisterDTO) -> (r: Result<String, RegisterError>)
    ensures
        dto.password@ != dto.confirm_password@ <==> (r matches Err(RegisterError::PasswordMismatch)),
        dto.password@ == dto.confirm_password@ ==> (r is Ok || r matches Err(RegisterError::HashFailed(_))),
{
    if !dto.passwords_match() {
        return Err(RegisterError::PasswordMismatch);
    }
    match hash_password(dto.password.as_str()) {
        Ok(h) => Ok(h),
        Err(e) => Err(RegisterError::HashFailed(e.to_string())),
    }
}

} // verus!
