[package]
name = "audio_transcribe"
version = "0.1.0"
edition = "2021"
publish = false

[dependencies]
chrono = "=0.4.45"
clap = { version = "=4.6.7", features = ["derive"] }
crossterm = "=0.29.0"
dirs = "=7.0.0"
env_logger = "=0.11.11"
futures-util = "=0.3.34"
log = "=0.4.34"
num_cpus = "=1.17.0"
reqwest = { version = "=0.12.28", default-features = false, features = ["rustls-tls", "stream"] }
thiserror = "=2.0.21"
tokio = { version = "=1.53.2", features = ["macros", "rt-multi-thread"] }

[dev-dependencies]
tempfile = "*"
