[package]
name = "vultr_cli"
version = "0.1.0"
edition = "2021"
publish = false

[dependencies]
base64 = "0.22"
url = "2"
rand = "0.8"
httpdate = "1"
serde = { version = "1", features = ["derive"] }
serde_json = "1"
reqwest = { version = "0.12", default-features = false, features = ["json", "rustls-tls"] }
tokio = { version = "1", features = ["macros", "rt-multi-thread", "time"] }
clap = { version = "4", features = ["derive", "env"] }
clap_complete = "4"
colored = "2"
dialoguer = "0.11"
indicatif = "0.17"
tabled = "0.16"
thiserror = "1"
tracing = "0.1"
tracing-subscriber = { version = "0.3", features = ["env-filter"] }
