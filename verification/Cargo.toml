[package]
name = "termusic"
version = "0.1.0"
edition = "2021"
publish = false

[dependencies]
anyhow = "=1.0.104"
humantime = "=2.4.0"
id3 = "=1.17.2"
tui-realm-treeview = "=1.2.0"
tuirealm = "=1.9.2"
unicode-truncate = "=3.0.0"
ytd-rs = "=0.1.7"

[dev-dependencies]
regex = "=1.13.1"
