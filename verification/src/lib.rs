//! Authentication library: configuration, input validation, the
//! registration flow, password hashing, and the pure parts of storage
//! error handling and database setup.

pub mod auth;
pub mod interfaces;
pub mod model;
pub mod setup;
pub mod storage;
pub mod utils;
