[package]
name = "mc_auth"
version = "0.1.0"
edition = "2021"
publish = false

[dependencies]
chrono = "=0.4.45"
serde = { version = "=1.0.229", features = ["derive"] }
toml_edit = { version = "=0.25.15", features = ["serde"] }
reqwest = { version = "=0.13.5", default-features = false, features = ["json", "form"] }
tokio = { version = "=1.53.2", features = ["macros", "rt-multi-thread"] }
