[package]
name = "securelog"
version = "0.1.0"
edition = "2021"
publish = false

[dependencies]
bcrypt = "0.15"
chrono = { version = "0.4", features = ["serde"] }
rand = "0.8"
regex = "1"
wildmatch = "2"
actix-web = { version = "4", default-features = false, features = ["macros", "rustls"] }
actix-identity = "0.5"
actix-session = { version = "0.7", features = ["cookie-session"] }
anyhow = "1"
clap = { version = "3", features = ["cargo"] }
config = { version = "0.13", default-features = false, features = ["toml"] }
deadpool = "0.9"
deadpool-postgres = "0.10"
flexi_logger = "0.22"
log = "0.4"
reqwest = { version = "0.11", default-features = false, features = ["blocking", "cookies", "rustls-tls"] }
rpassword = "7"
rustls = "0.20"
rustls-pemfile = "1"
serde = { version = "1", features = ["derive"] }
serde_json = "1"
thiserror = "1"
tokio-postgres = { version = "0.7", features = ["with-chrono-0_4"] }
toml = "0.5"
webhook = "2"
