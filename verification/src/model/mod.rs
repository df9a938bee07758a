pub mod common;
pub mod config;
pub mod role;
pub mod session;
pub mod token;
pub mod user;
pub mod user_role;
