[package]
name = "asthobin"
version = "0.1.0"
edition = "2021"
publish = false

[dependencies]
actix-cors = "*"
actix-files = "*"
actix-governor = "*"
actix-web = "4"
askama = "*"
chrono = "*"
confik = "*"
dashmap = "*"
diesel = { version = "2", features = ["postgres"] }
diesel-async = { version = "*", features = ["postgres", "bb8", "async-connection-wrapper"] }
diesel_migrations = { version = "2", features = ["postgres"] }
dotenvy = "*"
env_logger = "*"
html-escape = "*"
log = "*"
openssl = "*"
rand = "*"
rustls = "*"
rustls-pemfile = "*"
serde = { version = "1", features = ["derive"] }
serde_json = "1"
syntect = { version = "5", default-features = false, features = ["default-fancy"] }
thiserror = "*"
tokio = { version = "1", features = ["full"] }
