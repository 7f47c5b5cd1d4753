[package]
name = "ncb_tts_r2"
version = "0.1.0"
edition = "2021"
publish = false

[dependencies]
regex = "=1.13.1"
lru = "=0.18.5"
serde = { version = "=1.0.229", features = ["derive"] }
serde_json = "=1.0.151"
toml = "=1.1.7"
base64 = "=0.23.1"
tokio = { version = "=1.53.2", features = ["rt-multi-thread", "macros", "time", "sync"] }
reqwest = { version = "=0.13.5", features = ["json", "query"] }
redis = { version = "=1.7.1", features = ["tokio-comp"] }
