[package]
name = "moments"
version = "0.1.0"
edition = "2021"
publish = false

[dependencies]
uuid = { version = "1", features = ["v4"] }
blake3 = "1"
sha1 = "0.10"
chrono = "0.4"
kamadak-exif = "0.6"
gettext-rs = { version = "0.7", features = ["gettext-system"] }
serde = { version = "1", features = ["derive"] }
serde_json = "1"
toml = "0.8"
thiserror = "2"
tracing = "0.1"
async-trait = "0.1"
tokio = { version = "1", features = ["full"] }
sqlx = { version = "0.8", default-features = false, features = ["runtime-tokio", "sqlite", "migrate"] }
reqwest = { version = "0.12", default-features = false, features = ["json", "multipart", "stream", "rustls-tls"] }
image = { version = "0.25", default-features = false, features = ["jpeg", "png", "webp", "tiff"] }
rawler = "0.7"
gstreamer = "0.23"
gstreamer-app = "0.23"
gstreamer-video = "0.23"
libsecret = "0.7"
gio = "0.20"
