[package]
name = "osu_map_download"
version = "0.1.0"
edition = "2021"
publish = false

[dependencies]
anyhow = "*"
clap = { version = "*", features = ["derive"] }
directories = "*"
futures-util = { version = "*", default-features = false, features = ["std"] }
reqwest = { version = "*", default-features = false, features = ["rustls-tls", "stream"] }
rpassword = "*"
serde = { version = "*", features = ["derive"] }
serde_json = "*"
tokio = { version = "*", features = ["rt-multi-thread", "macros", "fs", "io-util"] }
