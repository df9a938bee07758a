[package]
name = "auth_lib"
version = "0.1.0"
edition = "2021"
publish = false

[dependencies]
argon2 = { version = "*", features = ["std"] }
uuid = { version = "*", features = ["v4"] }
chrono = "*"
sqlx = { version = "*", features = ["runtime-tokio", "postgres", "uuid", "chrono"] }
tokio = { version = "*", features = ["full"] }
tokio-postgres = { version = "*", features = ["with-uuid-1", "with-chrono-0_4"] }
deadpool-postgres = "*"
async-trait = "*"
