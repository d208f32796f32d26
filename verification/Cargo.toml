[package]
name = "qmk_layer_monitor"
version = "0.1.0"
edition = "2021"
publish = false

[dependencies]
anyhow = "*"
ctrlc = "*"
env_logger = "*"
hidapi = "*"
log = "*"

[dev-dependencies]
serde_json = "*"
