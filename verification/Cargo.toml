[package]
name = "groovtube-hotkey"
version = "0.1.0"
edition = "2021"
publish = false

[dependencies]
indexmap = "=2.14.2"
uuid = "=1.29.0"
tokio = { version = "1", features = ["rt-multi-thread", "macros", "time", "fs", "io-util", "sync"] }
tokio-util = "0.7"
futures = "0.3"
iced = { version = "0.12", default-features = false, features = ["tokio"] }
serde = { version = "1", features = ["derive"] }
serde_json = "1"
thiserror = "1"
log = "0.4"
fern = "0.6"
humantime = "2"
directories-next = "2"
fd-lock = "4"
open = "5"
