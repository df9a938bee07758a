//! Session domain models.
use vstd::prelude::*;

use crate::model::common::Timestamp;

verus! {

/// A fully hydrated `sessions` row.
#[derive(Debug)]
pub struct Session {
    pub id: uuid::Uuid,
    pub user_id: uuid::Uuid,
    pub access_token: String,
    pub access_created_at: Timestamp,
    pub access_expires_at: Timestamp,
    pub refresh_token: String,
    pub refresh_created_at: Timestamp,
    pub refresh_expires_at: Timestamp,
}

/// Ready-to-insert session data.
#[derive(Debug)]
pub struct NewSession {
    pub user_id: uuid::Uuid,
    pub access_token: String,
    pub access_expires_at: Timestamp,
    pub refresh_token: String,
    pub refresh_expires_at: Timestamp,
}

} // verus!
