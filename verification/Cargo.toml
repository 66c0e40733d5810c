[package]
name = "rustmix"
version = "0.1.0"
edition = "2021"
publish = false

[dependencies]
regex = "=1.13.1"
rand = "=0.8.8"
chrono = "=0.4.45"
urlencoding = "=2.1.3"
url = "=2.5.8"
thiserror = "=1.0.69"
serde = { version = "=1.0.229", features = ["derive"] }
serde_json = "=1.0.154"
crossterm = "=0.28.1"
dialoguer = "=0.11.0"
rpassword = "=7.5.4"
reqwest = { version = "=0.12.28", default-features = false, features = ["blocking", "cookies"] }
execute = "=0.2.15"
crossbeam = "=0.8.5"
log = "=0.4.35"
log4rs = "=1.4.0"
lazy_static = "=1.5.1"
tokio = { version = "=1.54.1", features = ["sync", "time"] }
glob = "0.3"
fs_extra = "1"
dirs = "5"
csv = "1"
num_cpus = "1"
