[package]
name = "dockyard"
version = "0.1.0"
edition = "2021"
publish = false

[dependencies]
bollard = "0.19"
bytes = "1"
clap = { version = "4", features = ["derive"] }
dashmap = "6"
docker-compose-types = "*"
futures-util = "0.3"
git2 = "0.20"
http-body-util = "0.1"
humantime = "2"
hyper = "1"
indexmap = "2"
owo-colors = "4"
serde = { version = "1", features = ["derive"] }
serde_yaml = "0.9"
tokio = { version = "1", features = ["full"] }
tokio-util = { version = "0.7", features = ["io"] }
tracing-subscriber = { version = "0.3", features = ["env-filter"] }
