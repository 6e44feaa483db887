[package]
name = "hextacy"
version = "0.1.0"
edition = "2021"
publish = false

[dependencies]
chrono = "0.4"
serde_json = "1"
serde = { version = "1", features = ["derive"] }
async-trait = "0.1"
thiserror = "1"
tracing = "0.1"
redis = "0.23"
actix-web = "4"
clap = { version = "4", features = ["derive"] }
syn = { version = "2", features = ["full"] }
diesel = { version = "2", features = ["postgres", "r2d2", "chrono"] }
mongodb = "2"
lettre = { version = "0.10", default-features = false, features = ["builder", "smtp-transport"] }
