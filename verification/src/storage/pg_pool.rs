//! Errors of building a PostgreSQL connection pool.
use vstd::prelude::*;

verus! {

#[derive(Debug)]
pub enum PoolBuildError {
    /// The pool library rejected the configuration or could not connect.
    Config(String),
}

impl PoolBuildError {
    /// The message this error displays as.
    pub fn message(&self) -> (s: String)
        ensures
            match self {
                PoolBuildError::Config(msg) => s@ == "failed to build connection pool: "@ + msg@,
            },
    {
        match self {
            PoolBuildError::Config(msg) => {
                let mut s = String::from_str("failed to build connection pool: ");
                s.append(msg.as_str());
                s
            },
        }
    }
}

} // verus!
