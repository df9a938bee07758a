//! User domain models.
use vstd::prelude::*;

use crate::model::common::Timestamp;
use crate::model::role::Role;

verus! {

/// A fully hydrated `users` row.
#[derive(Debug)]
pub struct User {
    pub id: uuid::Uuid,
    pub email: String,
    pub password_hash: Option<String>,
    pub jwt_secret: Option<String>,
    pub username: Option<String>,
    pub first_name: Option<String>,
    pub last_name: Option<String>,
    pub avatar_url: Option<String>,
    pub is_active: bool,
    pub is_verified: bool,
    pub created_at: Timestamp,
    pub updated_at: Timestamp,
}

/// A user together with the roles they currently hold.
#[derive(Debug)]
pub struct UserWithRoles {
    pub id: uuid::Uuid,
    pub email: String,
    pub password_hash: Option<String>,
    pub jwt_secret: Option<String>,
    pub username: Option<String>,
    pub first_name: Option<String>,
    pub last_name: Option<String>,
    pub avatar_url: Option<String>,
    pub is_active: bool,
    pub is_verified: bool,
    pub created_at: Timestamp,
    pub updated_at: Timestamp,
    pub roles: Option<Vec<Role>>,
}

impl UserWithRoles {
    /// Every field of `user`, and `roles` as the held roles.
    pub fn new(user: User, roles: Vec<Role>) -> (r: Self)
        ensures
            r.id == user.id,
            r.email == user.email,
            r.password_hash == user.password_hash,
            r.jwt_secret == user.jwt_secret,
            r.username == user.username,
            r.first_name == user.first_name,
            r.last_name == user.last_name,
            r.avatar_url == user.avatar_url,
            r.is_active == user.is_active,
            r.is_verified == user.is_verified,
            r.created_at == user.created_at,
            r.updated_at == user.updated_at,
            r.roles == Some(roles),
    {
        UserWithRoles {
            id: user.id,
            email: user.email,
            password_hash: user.password_hash,
            jwt_secret: user.jwt_secret,
            username: user.username,
            first_name: user.first_name,
            last_name: user.last_name,
            avatar_url: user.avatar_url,
            is_active: user.is_active,
            is_verified: user.is_verified,
            created_at: user.created_at,
            updated_at: user.updated_at,
            roles: Some(roles),
        }
    }
}

/// Ready-to-insert user data: the password is already hashed and the
/// per-user JWT secret already generated.
#[derive(Debug)]
pub struct NewUser {
    pub email: String,
    pub password_hash: String,
    pub jwt_secret: String,
    pub username: Option<String>,
    pub first_name: Option<String>,
    pub last_name: Option<String>,
}

/// New values for a user's mutable fields, the password already hashed.
#[derive(Debug)]
pub struct UserUpdate {
    pub email: String,
    pub password_hash: String,
    pub username: Option<String>,
    pub first_name: Option<String>,
    pub last_name: Option<String>,
}

/// Inbound data required to register a new user; `password` is plaintext.
#[derive(Debug)]
pub struct RegisterRequest {
    pub email: String,
    pub password: String,
    pub username: Option<String>,
    pub first_name: Option<String>,
    pub last_name: Option<String>,
}

/// Returned after a successful registration; omits the sensitive fields.
#[derive(Debug)]
pub struct RegisterResponse {
    pub user_id: uuid::Uuid,
    pub email: String,
    pub username: Option<String>,
}

impl RegisterResponse {
    pub fn from_user(user: User) -> (r: Self)
        ensures
            r.user_id == user.id,
            r.email == user.email,
            r.username == user.username,
    {
        RegisterResponse { user_id: user.id, email: user.email, username: user.username }
    }
}

} // verus!
