[package]
name = "ind_persistence"
version = "0.1.0"
edition = "2021"
publish = false

[dependencies]
chrono = { version = "=0.4.45", default-features = false, features = ["std", "clock"] }
uuid = { version = "=1.29.1", features = ["v7"] }
serde_json = "=1.0.154"
sqlx = { version = "=0.9.0", default-features = false, features = ["postgres", "runtime-tokio", "chrono", "uuid", "json"] }
tokio = { version = "=1.54.1", features = ["rt", "macros"] }
async-trait = "=0.1.92"
tracing = "=0.1.44"
apalis = "=1.0.0"
apalis-postgres = "=1.0.0"
