[package]
name = "mkarchqemu"
version = "0.1.0"
edition = "2021"
publish = false

[dependencies]
actix-web = { version = "4", default-features = false, features = ["macros"] }
clap = "4"
serde = { version = "1", features = ["derive"] }
serde_json = "1"
