[package]
name = "tempest"
version = "0.1.0"
edition = "2021"
publish = false

[dependencies]
aes-gcm = "0.10"
base64 = "0.22"
rand = "0.8"
url = "2"
serde_json = "1"
zip = { version = "2", default-features = false, features = ["deflate"] }
dirs = "5"
which = "6"
serde = { version = "1", features = ["derive"] }
toml = "0.8"
clap = { version = "4", features = ["derive"] }
colored = "2"
ctrlc = "3"
flate2 = "1"
tar = "0.4"
zstd = "0.13"
futures-util = "0.3"
indicatif = "0.17"
libc = "0.2"
reqwest = { version = "0.12", default-features = false, features = ["rustls-tls", "cookies", "json", "stream"] }
tokio = { version = "1", features = ["macros", "rt-multi-thread"] }
tracing = "0.1"
tracing-subscriber = { version = "0.3", features = ["env-filter"] }
