[package]
name = "ode_artwork_downloader"
version = "0.1.0"
edition = "2021"
publish = false

[dependencies]
aes-gcm = "0.10"
base64 = "0.22"
chd = "0.3"
cue_sheet = "0.3"
env_logger = "0.11"
image = { version = "0.25", default-features = false, features = ["jpeg", "png"] }
log = "0.4"
quick-xml = { version = "0.37", features = ["serialize"] }
regex = "1"
reqwest = { version = "0.12", default-features = false, features = ["blocking", "json"] }
serde = { version = "1", features = ["derive"] }
serde_json = "1"
sha1 = "0.10"
thiserror = "1"
tiny_http = "0.12"
urlencoding = "2"
zip = { version = "2", default-features = false, features = ["deflate"] }
