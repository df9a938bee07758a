pub mod role_queries;
pub mod user_queries;
pub mod user_role_queries;
