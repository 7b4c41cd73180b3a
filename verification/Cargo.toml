[package]
name = "deletion"
version = "0.1.0"
edition = "2021"
publish = false

[dependencies]
activitypub_federation = { version = "0.5.8", default-features = false }
activitystreams = "0.7.0-alpha.1"
actix-web = { version = "4", default-features = false }
bcrypt = "0.15"
chrono = { version = "0.4.38", default-features = false, features = ["clock", "std"] }
diesel = { version = "2.1", default-features = false }
serde = { version = "1", features = ["derive"] }
tracing = "0.1"
url = { version = "2", features = ["serde"] }
