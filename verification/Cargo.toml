[package]
name = "benten"
version = "0.1.0"
edition = "2021"
publish = false

[dependencies]
itertools = "0.10"
serde = { version = "1", features = ["derive"] }
csv = "1"
serde_yaml = "0.9"
xdg = "2"
thiserror = "1"
log = "0.4"
structopt = "0.3"
inotify-sys = "0.1"
mio = { version = "0.8", features = ["os-poll", "os-ext"] }
