[package]
name = "break_stack"
version = "0.1.0"
edition = "2021"
publish = false

[dependencies]
askama = "0.12"
askama_axum = "0.4"
axum = "0.7"
proc-macro2 = "1"
quote = "1"
serde = "1"
sqlx = { version = "0.7", default-features = false }
syn = { version = "2", features = ["full"] }
thiserror = "1"
