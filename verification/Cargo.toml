[package]
name = "datafox"
version = "0.1.0"
edition = "2021"
publish = false

[dependencies]
sqlparser = "*"
native-windows-gui = "*"
native-windows-derive = "*"
winapi = { version = "0.3", features = ["winuser", "libloaderapi"] }
tokio = { version = "1", features = ["rt-multi-thread", "macros"] }
sqlx = { version = "*", default-features = false, features = ["postgres", "runtime-tokio"] }
anyhow = "1"
