//! Value types shared by the domain models.
use vstd::prelude::*;

verus! {

/// Row identifiers are `uuid::Uuid`s, carried through unread.
#[verifier::external_type_specification]
#[verifier::external_body]
pub struct ExUuid(uuid::Uuid);

/// A point in time: microseconds since the Unix epoch, UTC (the precision
/// of a Postgres `timestamptz`).
#[derive(Debug, Clone, Copy, PartialEq, Eq)]
pub struct Timestamp {
    pub micros: i64,
}

} // verus!
