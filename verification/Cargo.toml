[package]
name = "gaspi"
version = "0.1.0"
edition = "2021"
publish = false

[dependencies]
clap = { version = "*", features = ["derive"] }
dotenv = "*"
reqwest = { version = "*", default-features = false }
serde_json = "*"
sysinfo = "*"
tokio = { version = "*", default-features = false, features = ["macros", "rt-multi-thread"] }
