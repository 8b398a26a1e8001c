[package]
name = "dynkube"
version = "0.1.0"
edition = "2021"
publish = false

[dependencies]
anyhow = "=1.0.104"
clap = { version = "=4.6.7", features = ["derive"] }
futures = "=0.3.34"
k8s-openapi = { version = "=0.28.0", features = ["latest"] }
kube = "=4.2.0"
serde_json = "=1.0.151"
rustix = { version = "=1.1.5", features = ["termios"] }
tokio = { version = "=1.53.2", features = ["macros", "rt-multi-thread"] }
