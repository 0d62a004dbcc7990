[package]
name = "learn_async_rust"
version = "0.1.0"
edition = "2021"
publish = false

[dependencies]
actix-web = { version = "4", default-features = false, features = ["macros"] }
anyhow = "1"
chrono = "0.4"
mio = { version = "1", features = ["net", "os-poll"] }
