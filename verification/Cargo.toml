[package]
name = "jira_clone"
version = "0.1.0"
edition = "2021"
publish = false

[dependencies]
anyhow = "1.0"
itertools = "0.13"
serde = { version = "1.0", features = ["derive"] }
serde_json = "1.0"
