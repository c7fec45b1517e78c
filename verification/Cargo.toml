[package]
name = "bevy_common_assets"
version = "0.1.0"
edition = "2021"
publish = false

[dependencies]
bevy_app = "0.17"
bevy_asset = "0.17"
plist = "=1.10.3"
rpkl = "=0.8.0"
serde = "=1.0.229"
thiserror = "=2.0.21"
