[package]
name = "krankerl"
version = "0.1.0"
edition = "2021"
publish = false

[dependencies]
base64 = "=0.23.1"
flate2 = "=1.1.10"
fs_extra = "=1.3.0"
git2 = "=0.21.0"
globset = "=0.4.20"
hex = "=0.4.3"
ignore = "=0.4.33"
nextcloud_appinfo = "=0.6.0"
openssl = "=0.10.81"
serde = { version = "=1.0.229", features = ["derive"] }
serde_json = "1"
tar = "=0.4.46"
tempdir = "=0.3.7"
toml = "=1.1.7"
walkdir = "=2.5.0"
