[package]
name = "lemmy_comments"
version = "0.1.0"
edition = "2021"
publish = false

[dependencies]
activitystreams = "=0.7.0-alpha.4"
actix-web = { version = "4", default-features = false }
async-trait = "0.1"
log = "0.4"
serde = { version = "1", features = ["derive"] }
serde_json = "1"
url = "2"
