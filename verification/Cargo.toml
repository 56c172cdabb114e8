[package]
name = "mtg_set_colors"
version = "0.1.0"
edition = "2021"
publish = false

[dependencies]
serde_json = "*"
reqwest = { version = "*", default-features = false, features = ["json"] }
tokio = { version = "*", features = ["macros", "rt-multi-thread", "fs", "io-util"] }
clap = { version = "*", features = ["derive"] }
