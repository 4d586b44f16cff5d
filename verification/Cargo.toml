[package]
name = "gh_api_client"
version = "0.1.0"
edition = "2021"
publish = false

[dependencies]
percent-encoding = "2"
url = "2"
http = "1"
tinytemplate = "1"
serde = { version = "1", features = ["derive"] }
serde_json = "1"
compact_str = "0.8"
tokio = { version = "1", features = ["sync"] }
reqwest = { version = "0.12", default-features = false, features = ["json"] }
async-trait = "0.1"
log = "0.4"
tracing = "0.1"
