[package]
name = "media_proxy"
version = "0.1.0"
edition = "2021"
publish = false

[dependencies]
actix-web = { version = "4", default-features = false, features = ["macros"] }
anyhow = "1"
awc = { version = "3", default-features = false, features = ["rustls"] }
confy = "0.5"
env_logger = "0.10"
image = { version = "0.24", default-features = false, features = ["gif", "jpeg", "png", "webp"] }
log = "0.4"
mime = "0.3"
rustls = "0.20"
serde = { version = "1", features = ["derive"] }
serde_derive = "1"
webpki-roots = "0.22"
