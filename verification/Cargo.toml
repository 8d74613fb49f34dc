[package]
name = "pumpkin_net"
version = "0.1.0"
edition = "2021"
publish = false

[dependencies]
base64 = "0.22"
log = "*"
num-bigint = "0.4"
rand = "*"
rsa = "0.10.0-rc.9"
serde = { version = "1", features = ["derive"] }
serde_json = "1"
sha1 = "*"
sha2 = "*"
subtle = "2"
thiserror = "2"
tokio = { version = "1", features = ["io-util", "macros", "net", "rt", "rt-multi-thread", "sync", "time"] }
ureq = { version = "3", features = ["json"] }
uuid = { version = "1", features = ["serde"] }
