[package]
name = "mgmt_core"
version = "0.1.0"
edition = "2021"
publish = false

[dependencies]
url = "2"
serde_json = "1"
chrono = { version = "0.4", default-features = false, features = ["clock", "std"] }
oauth2 = { version = "4", default-features = false, features = ["reqwest"] }
reqwest = { version = "0.11", default-features = false, features = ["json"] }
async-trait = "0.1"
bytes = "1"
