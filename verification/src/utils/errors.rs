//! Auth-domain error types and their messages.
use vstd::prelude::*;

use crate::model::config::ConfigError;
use crate::utils::text::{contains_seq, occurs_at};

verus! {

/// All errors that can arise from auth-service operations.
#[derive(Debug)]
pub enum AuthError {
    /// A user with the given email already exists.
    EmailAlreadyTaken,
    /// A user with the given username already exists.
    UsernameAlreadyTaken,
    /// The supplied email address did not pass format validation.
    InvalidEmail(String),
    /// The supplied password did not meet complexity requirements.
    WeakPassword(String),
    /// Credentials were valid but the account has been deactivated.
    AccountDisabled,
    /// Credentials were valid but the account has not been verified.
    AccountNotVerified,
    /// Password hashing or verification failed.
    HashingError(String),
    /// An unexpected database error occurred.
    DatabaseError(String),
    /// A catch-all for unexpected internal failures.
    Internal(String),
    /// The user already has the role being assigned.
    RoleAlreadyAssigned,
    /// The user does not have the role being revoked.
    RoleNotAssigned,
    /// No user was found for the given identifier.
    UserNotFound,
    /// Email/password combination did not match.
    InvalidCredentials,
    /// JWT signing or encoding failed.
    TokenCreationError(String),
    /// The supplied JWT is invalid, expired, or unrecognised.
    InvalidToken(String),
    /// The token has been explicitly revoked (blocklist hit).
    TokenRevoked,
}

/// The human-readable message of an error.
pub open spec fn auth_error_text(e: AuthError) -> Seq<char> {
    match e {
        AuthError::EmailAlreadyTaken => "email address is already registered"@,
        AuthError::UsernameAlreadyTaken => "username is already taken"@,
        AuthError::InvalidEmail(reason) => "invalid email address: "@ + reason@,
        AuthError::WeakPassword(reason) => "password does not meet requirements: "@ + reason@,
        AuthError::AccountDisabled => "account is disabled"@,
        AuthError::AccountNotVerified => "account has not been verified"@,
        AuthError::HashingError(msg) => "password hashing error: "@ + msg@,
        AuthError::DatabaseError(msg) => "database error: "@ + msg@,
        AuthError::Internal(msg) => "internal error: "@ + msg@,
        AuthError::RoleAlreadyAssigned => "user already has this role"@,
        AuthError::RoleNotAssigned => "user does not have this role"@,
        AuthError::UserNotFound => "no user found with the given identifier"@,
        AuthError::InvalidCredentials => "invalid email or password"@,
        AuthError::TokenCreationError(msg) => "token creation error: "@ + msg@,
        AuthError::InvalidToken(msg) => "invalid token: "@ + msg@,
        AuthError::TokenRevoked => "token has been revoked"@,
    }
}

fn prefixed(prefix: &str, rest: &String) -> (s: String)
    ensures
        s@ == prefix@ + rest@,
{
    let mut s = String::from_str(prefix);
    s.append(rest.as_str());
    s
}

impl AuthError {
    /// The message this error displays as.
    pub fn message(&self) -> (s: String)
        ensures
            s@ == auth_error_text(*self),
    {
        match self {
            AuthError::EmailAlreadyTaken => String::from_str("email address is already registered"),
            AuthError::UsernameAlreadyTaken => String::from_str("username is already taken"),
            AuthError::InvalidEmail(reason) => prefixed("invalid email address: ", reason),
            AuthError::WeakPassword(reason) => prefixed("password does not meet requirements: ", reason),
            AuthError::AccountDisabled => String::from_str("account is disabled"),
            AuthError::AccountNotVerified => String::from_str("account has not been verified"),
            AuthError::HashingError(msg) => prefixed("password hashing error: ", msg),
            AuthError::DatabaseError(msg) => prefixed("database error: ", msg),
            AuthError::Internal(msg) => prefixed("internal error: ", msg),
            AuthError::RoleAlreadyAssigned => String::from_str("user already has this role"),
            AuthError::RoleNotAssigned => String::from_str("user does not have this role"),
            AuthError::UserNotFound => String::from_str("no user found with the given identifier"),
            AuthError::InvalidCredentials => String::from_str("invalid email or password"),
            AuthError::TokenCreationError(msg) => prefixed("token creation error: ", msg),
            AuthError::InvalidToken(msg) => prefixed("invalid token: ", msg),
            AuthError::TokenRevoked => String::from_str("token has been revoked"),
        }
    }
}

/// The messages name what is wrong: those about an email mention `email`,
/// those about a password `password`, and a taken username `username`.
pub proof fn error_messages_name_their_subject(reason: String)
    ensures
        contains_seq(auth_error_text(AuthError::EmailAlreadyTaken), "email"@),
        contains_seq(auth_error_text(AuthError::InvalidEmail(reason)), "email"@),
        contains_seq(auth_error_text(AuthError::UsernameAlreadyTaken), "username"@),
        contains_seq(auth_error_text(AuthError::WeakPassword(reason)), "password"@),
{
    reveal_strlit("email");
    reveal_strlit("username");
    reveal_strlit("password");
    reveal_strlit("email address is already registered");
    reveal_strlit("invalid email address: ");
    reveal_strlit("username is already taken");
    reveal_strlit("password does not meet requirements: ");
    let taken = auth_error_text(AuthError::EmailAlreadyTaken);
    assert(taken.subrange(0, 5) =~= "email"@);
    assert(occurs_at(taken, "email"@, 0));
    let invalid = auth_error_text(AuthError::InvalidEmail(reason));
    assert(invalid.subrange(8, 13) =~= "email"@);
    assert(occurs_at(invalid, "email"@, 8));
    let user = auth_error_text(AuthError::UsernameAlreadyTaken);
    assert(user.subrange(0, 8) =~= "username"@);
    assert(occurs_at(user, "username"@, 0));
    let weak = auth_error_text(AuthError::WeakPassword(reason));
    assert(weak.subrange(0, 8) =~= "password"@);
    assert(occurs_at(weak, "password"@, 0));
}

/// The human-readable message of a configuration error.
pub open spec fn config_error_text(e: ConfigError) -> Seq<char> {
    match e {
        ConfigError::Missing(key) => "missing required configuration field: "@ + key@,
        ConfigError::Parse { key, reason } => "failed to parse configuration field '"@ + key@ + "': "@
            + reason@,
    }
}

impl ConfigError {
    /// The message this error displays as.
    pub fn message(&self) -> (s: String)
        ensures
            s@ == config_error_text(*self),
    {
        match self {
            ConfigError::Missing(key) => prefixed("missing required configuration field: ", key),
            ConfigError::Parse { key, reason } => {
                let mut s = prefixed("failed to parse configuration field '", key);
                s.append("': ");
                s.append(reason.as_str());
                s
            },
        }
    }
}

} // verus!
