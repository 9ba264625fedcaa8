[package]
name = "agenthost"
version = "0.1.0"
edition = "2021"
publish = false

[dependencies]
anyhow = "=1.0.104"
async-openai = { version = "=0.17.1", default-features = false, features = ["rustls"] }
axum = "=0.6.20"
chrono = "=0.4.45"
flume = "=0.11.1"
futures = "=0.3.34"
http = "=0.2.12"
hyper = { version = "=0.14.32", features = ["full"] }
jsonwebtoken = "=9.3.1"
llama_cpp_rs = "*"
maplit = "1"
once_cell = "=1.21.4"
pretty_env_logger = "=0.5.0"
rand = "=0.8.8"
regex = "=1.13.1"
rhai = "=1.27.0"
rhai-fs = "=0.1.5"
rhai-rand = "=0.1.7"
serde = { version = "=1.0.229", features = ["derive"] }
serde_json = { version = "=1.0.154", features = ["raw_value"] }
serde_urlencoded = "=0.7.1"
tiktoken-rs = "=0.5.9"
tokio = { version = "=1.54.1", features = ["full"] }
tokio-stream = "=0.1.19"
tokio-util = "=0.7.20"
tower-http = { version = "=0.4.4", features = ["cors", "fs", "trace"] }
warp = "=0.3.7"
