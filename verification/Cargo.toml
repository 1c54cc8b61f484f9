[package]
name = "clu"
version = "0.1.0"
edition = "2021"
publish = false

[dependencies]
regex = "1"
anyhow = "1"
async-process = "*"
async-trait = "*"
clap = { version = "4", features = ["derive", "env"] }
dotenv = "*"
futures = "0.3"
git2 = { version = "*", default-features = false }
graphql_client = { version = "*", default-features = false }
indicatif = "*"
reqwest = { version = "0.12", default-features = false, features = ["json", "rustls-tls"] }
serde = { version = "1", features = ["derive"] }
serde_json = "1"
thiserror = "*"
tokio = { version = "1", features = ["macros", "rt-multi-thread"] }
toml = "*"
tracing = "0.1"
tracing-indicatif = "*"
tracing-subscriber = "0.3"
