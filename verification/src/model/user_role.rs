//! User-role assignment models.
use vstd::prelude::*;

use crate::model::common::Timestamp;

verus! {

/// A fully hydrated `users_roles` row.
#[derive(Debug)]
pub struct UserRole {
    pub id: uuid::Uuid,
    pub user_id: uuid::Uuid,
    pub role_id: uuid::Uuid,
    /// When the role was granted.
    pub assigned_at: Timestamp,
    /// `None` while the assignment is active; the revocation time once revoked.
    pub revoked_at: Option<Timestamp>,
}

} // verus!
