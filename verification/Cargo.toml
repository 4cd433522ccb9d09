[package]
name = "apprentice"
version = "0.1.0"
edition = "2021"
publish = false

[dependencies]
serde_json = "*"
toml = "*"
clap = { version = "*", features = ["env"] }
dirs = "*"
rustyline = { version = "*", features = ["derive"] }
anstyle = "*"
reqwest = { version = "*", default-features = false, features = ["blocking", "json"] }
thiserror = "*"
