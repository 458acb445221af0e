[package]
name = "fuel_core"
version = "0.1.0"
edition = "2021"
publish = false

[dependencies]
fuel-vm = "=0.59.2"
fuel-tx = "=0.59.2"
fuel-types = "=0.59.3"
fuel-asm = "=0.59.3"
hashbrown = "=0.14.5"
tokio = { version = "=1.54.1", features = ["macros", "rt-multi-thread"] }
env_logger = "=0.11.11"
ethers-core = "=2.0.14"
ethers-providers = "=2.0.14"
serde_json = "=1.0.154"

[dev-dependencies]
rand = "=0.8.8"
fuel-vm = { version = "=0.59.2", features = ["test-helpers", "random"] }
fuel-tx = { version = "=0.59.2", features = ["test-helpers", "random"] }
fuel-types = { version = "=0.59.3", features = ["random"] }
