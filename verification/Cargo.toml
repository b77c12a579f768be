[package]
name = "drakermore"
version = "0.1.0"
edition = "2021"
publish = false

[dependencies]
anyhow = "*"
axum = "*"
bpaf = { version = "*", features = ["derive"] }
bytes = "*"
crab_nbt = "*"
futures = "*"
hex = "*"
mime = "*"
serde = { version = "*", features = ["derive"] }
serde_json = "*"
serde_repr = "*"
sha2 = "*"
tokio = { version = "*", features = ["full"] }
tokio-stream = "*"
toml = "*"
tracing = "*"
tracing-subscriber = "*"
url_encor = "*"
zip = "*"
