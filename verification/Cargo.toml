[package]
name = "crownotify"
version = "0.1.0"
edition = "2021"
publish = false

[dependencies]
anyhow = "=1.0.104"
calloop = "=0.14.5"
env_logger = "=0.11.11"
log = "=0.4.35"
parley = "=0.5.0"
smol = "=2.0.2"
vello = { version = "=0.5.1", default-features = false }
zbus = "=5.19.0"
