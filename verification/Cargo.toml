[package]
name = "issue_responder"
version = "0.1.0"
edition = "2021"
publish = false

[dependencies]
serde_json = "1"
dotenv = "*"
flowsnet-platform-sdk = "*"
github-flows = "*"
openai-flows = "*"
store-flows = "*"
tokio = { version = "1", features = ["macros", "rt"] }
