pub mod errors;
pub mod pg_pool;
pub mod queries;
