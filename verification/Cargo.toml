[package]
name = "frpc"
version = "0.1.0"
edition = "2021"
publish = false

[dependencies]
sha1 = "0.10"
base64 = "0.21"
bin-layout = "*"
serde = { version = "1", features = ["derive"] }
toml = "*"
h2x = "*"
tokio = { version = "1", features = ["full"] }
quinn = "0.10"
rustls = "0.21"
syn = { version = "2", features = ["full"] }
quote = "1"
proc-macro2 = "1"
