[package]
name = "environmentd"
version = "0.1.0"
edition = "2021"
publish = false

[dependencies]
anyhow = "1"
aws-config = "0.55"
aws-credential-types = { version = "0.55", features = ["hardcoded-credentials"] }
aws-sdk-sts = "0.28"
aws-types = "0.55"
clap = { version = "3.2", features = ["derive", "env"] }
fail = "0.5"
http = "0.2"
humantime = "2"
itertools = "0.10"
jsonwebtoken = "8"
libc = "0.2"
num_cpus = "1"
once_cell = "1"
openssl-sys = "0.9"
opentelemetry = "0.20"
prometheus = { version = "0.13", default-features = false }
rdkafka-sys = "4"
serde = { version = "1", features = ["derive"] }
serde_json = "1"
shell-words = "1"
tokio = { version = "1", features = ["full"] }
tracing = "0.1"
tracing-opentelemetry = "0.21"
url = "2"
uuid = "1"
