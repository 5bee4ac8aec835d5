[package]
name = "loadgen"
version = "0.1.0"
edition = "2021"
publish = false

[dependencies]
serde_yaml = "*"
tokio = { version = "1", features = ["full"] }
futures = "0.3"
rumqttc = "*"
hyper = { version = "0.14", features = ["client", "http1", "tcp"] }
async-trait = "*"
