[package]
name = "demiarch_core"
version = "0.1.0"
edition = "2021"
publish = false

[dependencies]
uuid = { version = "=1.29.0", features = ["v4"] }
chrono = "=0.4.45"
base64 = "=0.22.1"
serde = { version = "=1.0.229", features = ["derive"] }
serde_json = "=1.0.154"
rand = "=0.8.8"
rand_distr = "=0.4.3"
thiserror = "=1.0.69"
sha2 = "=0.10.9"
image = { version = "=0.25.10", default-features = false, features = ["png"] }
reqwest = { version = "=0.12.28", default-features = false, features = ["json", "stream"] }
tokio = { version = "=1.54.1", features = ["time"] }
futures-util = "=0.3.34"
sqlx = { version = "0.8", default-features = false, features = ["sqlite", "runtime-tokio", "chrono", "macros"] }

[dev-dependencies]
