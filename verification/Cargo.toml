[package]
name = "o2_report_generator"
version = "0.1.0"
edition = "2021"
publish = false

[dependencies]
actix-web = { version = "=4.18.1", default-features = false, features = ["macros"] }
anyhow = "1"
chromiumoxide = { version = "=0.7.0", default-features = false, features = ["tokio-runtime", "_fetcher-rusttls-tokio"] }
chrono = "=0.4.45"
clap = { version = "=4.6.7", features = ["cargo"] }
dotenv_config = "=0.2.3"
dotenvy = "=0.15.7"
env_logger = "=0.11.11"
futures = "0.3"
lettre = { version = "=0.11.23", default-features = false, features = ["builder", "smtp-transport", "tokio1", "tokio1-rustls-tls"] }
log = "0.4"
once_cell = "1"
serde = { version = "1", features = ["derive"] }
tokio = { version = "=1.54.1", features = ["full"] }
