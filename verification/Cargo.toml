[package]
name = "reqwest_traits"
version = "0.1.0"
edition = "2021"
publish = false

[dependencies]
async-trait = "*"
http = "*"
reqwest = { version = "*", default-features = false, features = ["json"] }
reqwest-middleware = { version = "*", features = ["json"] }
serde = "*"

[dev-dependencies]
http-test-server = "*"
tokio = { version = "*", features = ["rt"] }
