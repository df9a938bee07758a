pub mod config;
pub mod errors;
pub mod text;
