//! Mapping of storage failures to domain errors.
//!
//! The storage layer reports a failed statement as a [`DbFailure`]: the
//! SQLSTATE code and violated constraint when the server sent them, and the
//! driver's message.
use vstd::prelude::*;

use crate::utils::errors::AuthError;
use crate::utils::text::{contains_seq, contains_str};

verus! {

/// A failed database statement, as plain values.
#[derive(Debug)]
pub struct DbFailure {
    /// SQLSTATE code, for errors reported by the server.
    pub code: Option<String>,
    /// Name of the violated constraint, when the server names one.
    pub constraint: Option<String>,
    /// The driver's rendering of the error.
    pub message: String,
}

/// A unique-constraint violation (SQLSTATE `23505`).
pub open spec fn is_unique_violation(f: DbFailure) -> bool {
    f.code matches Some(c) && c@ == "23505"@
}

/// The failure names the constraint `name`.
pub open spec fn names_constraint(f: DbFailure, name: Seq<char>) -> bool {
    f.constraint matches Some(c) && c@ == name
}

fn is_equal(s: &Option<String>, lit: &str) -> (b: bool)
    ensures
        b == (s matches Some(c) && c@ == lit@),
{
    match s {
        Some(c) => *c == String::from_str(lit),
        None => false,
    }
}

/// Errors from the `users` statements: a unique violation of `users_email`
/// or `users_username_key` becomes the matching "already taken" error, any
/// other failure a `DatabaseError` with the driver's message.
pub fn map_user_error(f: DbFailure) -> (e: AuthError)
    ensures
        e == (if is_unique_violation(f) && names_constraint(f, "users_email"@) {
            AuthError::EmailAlreadyTaken
        } else if is_unique_violation(f) && names_constraint(f, "users_username_key"@) {
            AuthError::UsernameAlreadyTaken
        } else {
            AuthError::DatabaseError(f.message)
        }),
{
    if is_equal(&f.code, "23505") {
        if is_equal(&f.constraint, "users_email") {
            return AuthError::EmailAlreadyTaken;
        }
        if is_equal(&f.constraint, "users_username_key") {
            return AuthError::UsernameAlreadyTaken;
        }
    }
    AuthError::DatabaseError(f.message)
}

/// Errors from the `roles` statements: a unique violation of
/// `roles_name_key` becomes a `DatabaseError` saying the name exists, any
/// other failure a `DatabaseError` with the driver's message.
pub fn map_role_error(f: DbFailure) -> (e: AuthError)
    ensures
        if is_unique_violation(f) && names_constraint(f, "roles_name_key"@) {
            e matches AuthError::DatabaseError(m) && m@ == "role name already exists"@
        } else {
            e == AuthError::DatabaseError(f.message)
        },
{
    if is_equal(&f.code, "23505") && is_equal(&f.constraint, "roles_name_key") {
        return AuthError::DatabaseError(String::from_str("role name already exists"));
    }
    AuthError::DatabaseError(f.message)
}

/// Errors from the `users_roles` statements: a unique violation of
/// `unique_user_role_active` becomes `RoleAlreadyAssigned`, any other
/// failure a `DatabaseError` with the driver's message.
pub fn map_user_role_error(f: DbFailure) -> (e: AuthError)
    ensures
        e == (if is_unique_violation(f) && names_constraint(f, "unique_user_role_active"@) {
            AuthError::RoleAlreadyAssigned
        } else {
            AuthError::DatabaseError(f.message)
        }),
{
    if is_equal(&f.code, "23505") && is_equal(&f.constraint, "unique_user_role_active") {
        return AuthError::RoleAlreadyAssigned;
    }
    AuthError::DatabaseError(f.message)
}

/// The constraint detail of a failure: its name, or empty.
pub open spec fn detail_of(f: DbFailure) -> Seq<char> {
    match f.constraint {
        Some(c) => c@,
        None => Seq::empty(),
    }
}

/// Errors from inserting a user through the connection-pool repository:
/// a constraint detail or message mentioning `users_email` means the email
/// is taken, one mentioning `users_username_key` that the username is; any
/// other failure is a `DatabaseError` carrying the message and the detail.
pub fn map_create_user_error(f: DbFailure) -> (e: AuthError)
    ensures
        if contains_seq(detail_of(f), "users_email"@) || contains_seq(f.message@, "users_email"@) {
            e == AuthError::EmailAlreadyTaken
        } else if contains_seq(detail_of(f), "users_username_key"@) || contains_seq(
            f.message@,
            "users_username_key"@,
        ) {
            e == AuthError::UsernameAlreadyTaken
        } else {
            e matches AuthError::DatabaseError(m) && m@ == f.message@ + " | constraint: "@ + detail_of(f)
        },
{
    let detail = match &f.constraint {
        Some(c) => c.clone(),
        None => String::new(),
    };
    if contains_str(detail.as_str(), "users_email") || contains_str(f.message.as_str(), "users_email") {
        return AuthError::EmailAlreadyTaken;
    }
    if contains_str(detail.as_str(), "users_username_key") || contains_str(
        f.message.as_str(),
        "users_username_key",
    ) {
        return AuthError::UsernameAlreadyTaken;
    }
    let mut m = f.message;
    m.append(" | constraint: ");
    m.append(detail.as_str());
    AuthError::DatabaseError(m)
}

} // verus!
