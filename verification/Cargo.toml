[package]
name = "dol_save_server"
version = "0.1.0"
edition = "2021"
publish = false

[dependencies]
axum = "0.8"
axum-server = { version = "0.7", features = ["tls-rustls"] }
tokio = { version = "1", features = ["full"] }
tower = "0.5"
tower-http = { version = "0.6", features = ["cors", "set-header", "compression-full", "fs"] }
tower-sessions = "0.14"
tracing = "0.1"
tracing-subscriber = { version = "0.3", features = ["env-filter", "chrono"] }
serde = { version = "1", features = ["derive"] }
serde_json = "1"
toml = "0.8"
chrono = "0.4"
glob = "0.3"
regex = "1"
base64 = "0.22"
lz-str = "0.2"
mime_guess = "2"
include_dir = "0.7"
mtzip = "*"
mail-send = { version = "0.5", default-features = false, features = ["builder"] }
path-absolutize = "3"
educe = "0.6"
clap = { version = "4", features = ["derive"] }
duration-str = "*"
