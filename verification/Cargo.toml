[package]
name = "dedicated_server_availability_watcher"
version = "0.1.0"
edition = "2021"
publish = false

[dependencies]
anyhow = "1"
array_tool = "1"
clap = { version = "4", features = ["derive"] }
colored = "2"
http = "0.2"
lettre = { version = "0.10", features = ["sendmail-transport"] }
reqwest = { version = "0.11", features = ["blocking", "json"] }
serde = { version = "1", features = ["derive"] }
serde_json = "1"
sha2 = "0.10"
thiserror = "1"
tracing = "0.1"
tracing-subscriber = { version = "0.3", features = ["env-filter"] }
uuid = "1"
