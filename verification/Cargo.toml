[package]
name = "satelit_scheduler"
version = "0.1.0"
edition = "2021"
publish = false

[dependencies]
uuid = { version = "=1.27.0", features = ["v4"] }
tokio = { version = "=1.53.2", features = ["macros", "rt-multi-thread", "time"] }
reqwest = { version = "=0.13.5", default-features = false, features = ["json"] }
serde = { version = "=1.0.229", features = ["derive"] }
serde_json = "=1.0.151"
config = { version = "=0.15.27", default-features = false, features = ["toml"] }
tinytemplate = "=1.2.1"
tonic = "=0.14.6"
tonic-prost = "*"
prost = "=0.14.4"
