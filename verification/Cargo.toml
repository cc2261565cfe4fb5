[package]
name = "gql_error"
version = "0.1.0"
edition = "2021"
publish = false

[dependencies]
reqwest = { version = "0.12", default-features = false }
serde = "1.0"
serde_json = "1.0"
