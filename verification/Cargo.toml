[package]
name = "foundry_client"
version = "0.1.0"
edition = "2021"
publish = false

[dependencies]
url = "2"
serde = { version = "1", features = ["derive"] }
serde_json = "1"
serde_repr = "*"
serde_path_to_error = "*"
thiserror = "*"
tokio = { version = "1", features = ["full"] }
futures-util = "*"
reqwest = { version = "*", features = ["cookies", "json"] }
rust_socketio = { version = "*", features = ["async"] }
clap = { version = "4", features = ["derive"] }
poise = "*"
pickledb = "*"
caith = "*"
