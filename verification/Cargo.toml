[package]
name = "zenbook_duo"
version = "0.1.0"
edition = "2021"
publish = false

[dependencies]
directories = "*"
futures = "0.3"
serde = { version = "1", features = ["derive"] }
tokio = { version = "1", features = ["macros", "rt", "rt-multi-thread", "net", "time"] }
toml = "*"
udev = "*"
