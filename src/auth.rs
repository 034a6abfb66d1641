//! Users, the requests that register and log them in, the claims of their
//! access tokens, and how a request names its user.

use vstd::prelude::*;
use vstd::string::*;
use crate::ids::{parse_uuid, uuid_parsed, uuid_text, uuid_to_text};
use crate::text::{after, has_prefix, starts_with};

verus! {

/// How long an access token stays valid, in seconds: one day.
pub const TOKEN_LIFETIME_SECS: usize = 86400;

/// A stored user, password hash included.
#[derive(Debug)]
pub struct User {
    pub id: u128,
    pub name: String,
    pub email: String,
    pub password: String,
    pub city: Option<String>,
    pub birth_date: Option<String>,
    pub created_at: Option<String>,
    pub avatar: Option<String>,
    pub bio: Option<String>,
}

/// A user as shown to clients: everything but the password hash.
#[derive(Debug)]
pub struct SafeUser {
    pub id: u128,
    pub name: String,
    pub email: String,
    pub city: Option<String>,
    pub birth_date: Option<String>,
    pub created_at: Option<String>,
    pub avatar: Option<String>,
    pub bio: Option<String>,
}

impl From<User> for SafeUser {
    fn from(user: User) -> (r: SafeUser) {
        SafeUser {
            id: user.id,
            name: user.name,
            email: user.email,
            city: user.city,
            birth_date: user.birth_date,
            created_at: user.created_at,
            avatar: user.avatar,
            bio: user.bio,
        }
    }
}

/// `user` without its password hash.
pub open spec fn safe_view(user: User) -> SafeUser {
    SafeUser {
        id: user.id,
        name: user.name,
        email: user.email,
        city: user.city,
        birth_date: user.birth_date,
        created_at: user.created_at,
        avatar: user.avatar,
        bio: user.bio,
    }
}

impl vstd::std_specs::convert::FromSpecImpl<User> for SafeUser {
    open spec fn obeys_from_spec() -> bool {
        true
    }

    open spec fn from_spec(user: User) -> SafeUser {
        safe_view(user)
    }
}

/// A request to register a user.
#[derive(Debug)]
pub struct RegisterDTO {
    pub name: String,
    pub email: String,
    pub password: String,
    pub confirm_password: String,
    pub city: Option<String>,
    pub birth_date: Option<String>,
}

impl RegisterDTO {
    /// Registration goes ahead only where the password was typed the same twice.
    pub fn passwords_match(&self) -> (r: bool)
        ensures
            r == (self.password@ == self.confirm_password@),
    {
        self.password == self.confirm_password
    }
}

/// A request to log in.
#[derive(Debug)]
pub struct LoginDTO {
    pub email: String,
    pub password: String,
}

/// The user part of a login answer.
#[derive(Debug)]
pub struct UserInfo {
    pub id: String,
    pub name: String,
    pub email: String,
    pub city: Option<String>,
    pub birth_date: Option<String>,
}

/// The answer to a successful registration or login.
#[derive(Debug)]
pub struct LoginResponse {
    pub user: UserInfo,
    pub token: String,
}

impl LoginResponse {
    pub fn for_user(user: SafeUser, token: String) -> (r: LoginResponse)
        ensures
            r.user.id@ == uuid_text(user.id),
            r.user.name == user.name,
            r.user.email == user.email,
            r.user.city == user.city,
            r.user.birth_date == user.birth_date,
            r.token == token,
    {
        let id = uuid_to_text(user.id);
        LoginResponse {
            user: UserInfo {
                id,
                name: user.name,
                email: user.email,
                city: user.city,
                birth_date: user.birth_date,
            },
            token,
        }
    }
}

/// What an access token states: its user, and when it was issued and
/// expires, in seconds since the Unix epoch.
#[derive(Debug)]
pub struct Claims {
    pub sub: String,
    pub exp: usize,
    pub iat: usize,
}

impl Claims {
    /// The claims of a token issued to `user_id` at `now`, valid for one day.
    pub fn for_user(user_id: u128, now: usize) -> (r: Claims)
        requires
            now + TOKEN_LIFETIME_SECS <= usize::MAX,
        ensures
            r.sub@ == uuid_text(user_id),
            r.iat == now,
            r.exp == now + TOKEN_LIFETIME_SECS,
    {
        Claims { sub: uuid_to_text(user_id), exp: now + TOKEN_LIFETIME_SECS, iat: now }
    }

    /// The user that the token was issued to, if its subject is an id.
    pub fn user_id(&self) -> (r: Option<u128>)
        ensures
            r == uuid_parsed(self.sub@),
    {
        parse_uuid(self.sub.as_str())
    }
}

/// The token of an `Authorization` header of the form `Bearer <token>`.
pub fn bearer_token(header: &str) -> (r: Option<String>)
    ensures
        r is Some <==> starts_with(header@, "Bearer "@),
        r matches Some(t) ==> t@ == header@.subrange("Bearer "@.len() as int, header@.len() as int),
{
    let scheme = "Bearer ";
    if has_prefix(header, scheme) {
        Some(after(header, scheme.unicode_len()))
    } else {
        None
    }
}

/// Why a request does not name a user.
#[derive(Clone, Copy, Debug, PartialEq, Eq, Structural)]
pub enum TokenError {
    /// The request has no `Authorization` header.
    MissingHeader,
    /// The header is not readable text.
    UnreadableHeader,
    /// The header does not start with `Bearer `.
    NotBearer,
    /// The token names a user, but not by a valid id.
    InvalidUserId,
    /// The token is of no known form.
    UnsupportedToken,
}

pub open spec fn token_error_text(e: TokenError) -> Seq<char> {
    match e {
        TokenError::MissingHeader => "Authorization header required"@,
        TokenError::UnreadableHeader => "Invalid authorization header"@,
        TokenError::NotBearer => "Invalid authorization format. Use: Bearer <token>"@,
        TokenError::InvalidUserId => "Invalid user ID in token"@,
        TokenError::UnsupportedToken => "Invalid token format. For testing, use: Bearer user_<uuid>"@,
    }
}

impl TokenError {
    /// The text that is sent back to the client.
    pub fn message(&self) -> (r: String)
        ensures
            r@ == token_error_text(*self),
    {
        match self {
            TokenError::MissingHeader => String::from_str("Authorization header required"),
            TokenError::UnreadableHeader => String::from_str("Invalid authorization header"),
            TokenError::NotBearer => String::from_str("Invalid authorization format. Use: Bearer <token>"),
            TokenError::InvalidUserId => String::from_str("Invalid user ID in token"),
            TokenError::UnsupportedToken => String::from_str(
                "Invalid token format. For testing, use: Bearer user_<uuid>",
            ),
        }
    }
}

/// The user that an `Authorization` header names: `Bearer user_<uuid>`.
pub open spec fn header_user(header: Seq<char>) -> Result<u128, TokenError> {
    if !starts_with(header, "Bearer "@) {
        Err(TokenError::NotBearer)
    } else {
        let token = header.subrange("Bearer "@.len() as int, header.len() as int);
        if !starts_with(token, "user_"@) {
            Err(TokenError::UnsupportedToken)
        } else {
            match uuid_parsed(token.subrange("user_"@.len() as int, token.len() as int)) {
                Some(id) => Ok(id),
                None => Err(TokenError::InvalidUserId),
            }
        }
    }
}

/// Reads the user from the value of an `Authorization` header.
pub fn user_id_from_header(header: &str) -> (r: Result<u128, TokenError>)
    ensures
        r == header_user(header@),
{
    let token = match bearer_token(header) {
        Some(t) => t,
        None => {
            return Err(TokenError::NotBearer);
        },
    };
    let marker = "user_";
    if !has_prefix(token.as_str(), marker) {
        return Err(TokenError::UnsupportedToken);
    }
    let id_text = after(token.as_str(), marker.unicode_len());
    match parse_uuid(id_text.as_str()) {
        Some(id) => Ok(id),
        None => Err(TokenError::InvalidUserId),
    }
}

} // verus!
