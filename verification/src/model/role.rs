//! Role domain models.
use vstd::prelude::*;

use crate::model::common::Timestamp;

verus! {

/// A fully hydrated `roles` row.
#[derive(Debug)]
pub struct Role {
    pub id: uuid::Uuid,
    /// Unique role name.
    pub name: String,
    /// Optional human-readable description.
    pub description: Option<String>,
    /// Row creation time.
    pub created_at: Timestamp,
}

/// Ready-to-insert role data.
#[derive(Debug)]
pub struct NewRole {
    /// Must be unique across the `roles` table.
    pub name: String,
    pub description: Option<String>,
}

} // verus!
