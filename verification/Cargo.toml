[package]
name = "npmi"
version = "0.1.0"
edition = "2021"
publish = false

[dependencies]
anyhow = "*"
base16ct = { version = "*", features = ["alloc"] }
clap = { version = "*", features = ["derive"] }
deno_semver = "*"
flate2 = "*"
indicatif = "*"
owo-colors = "*"
reqwest = { version = "*", default-features = false, features = ["rustls-tls", "json", "stream"] }
rustls = "*"
rustls-platform-verifier = "*"
serde = { version = "*", features = ["derive"] }
serde_json = "*"
sha1 = "*"
tar = "*"
textwrap = "*"
tokio = { version = "*", features = ["rt-multi-thread", "macros"] }
tokio-stream = "*"
tracing = "*"
tracing-subscriber = "*"
