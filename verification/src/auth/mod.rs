pub mod register;
pub mod password;
