[package]
name = "toast_task"
version = "0.1.0"
edition = "2021"
publish = false

[dependencies]
argon2rs = "0.2"
chrono = "0.4"
dotenv = "0.15"
ipnetwork = "0.20"
regex = "1"
reqwest = { version = "0.11", default-features = false, features = ["json"] }
rocket = { version = "0.5", features = ["json", "secrets"] }
rocket_db_pools = { version = "0.2", features = ["sqlx_postgres"] }
rocket_oauth2 = "0.5"
serde = { version = "1", features = ["derive"] }
serde_json = "1"
sqlx = { version = "0.7", default-features = false, features = ["postgres", "runtime-tokio", "uuid", "chrono", "ipnetwork"] }
time = { version = "0.3", features = ["formatting", "parsing"] }
uuid = "1"
validator = "0.16"
