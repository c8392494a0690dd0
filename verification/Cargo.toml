[package]
name = "npc_workbench"
version = "0.1.0"
edition = "2021"
publish = false

[dependencies]
serde = { version = "=1.0.229", features = ["derive"] }
serde_json = "=1.0.154"
ethers = { version = "=2.0.14", default-features = false }
reqwest = { version = "=0.11.27", default-features = false, features = ["json"] }
tokio = { version = "=1.54.1", features = ["rt-multi-thread", "macros", "sync", "time"] }
chrono = { version = "=0.4.45", default-features = false, features = ["clock", "std"] }
base64 = "=0.22.1"
sha2 = "=0.10.9"
rand = "=0.8.8"
regex = "=1.13.1"
uuid = { version = "1", features = ["v4"] }
async-trait = "=0.1.92"
futures = "=0.3.34"
bincode = "=1.3.3"
ecies = { version = "=0.2.14", default-features = false, features = ["pure"] }
dotenv = "=0.15.0"
