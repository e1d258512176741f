[package]
name = "tokio-modbus"
version = "0.1.0"
edition = "2021"
publish = false

[dependencies]
bytes = "=1.12.1"
byteorder = "=1.5.0"
log = "=0.4.35"
thiserror = "=1.0.69"
tokio = { version = "=1.54.1", default-features = false, features = ["net", "io-util", "rt", "time", "macros"] }
tokio-util = { version = "=0.7.20", default-features = false, features = ["codec"] }
futures-util = { version = "=0.3.34", default-features = false, features = ["std", "sink"] }
async-trait = "=0.1.92"
socket2 = "=0.5.10"
tokio-serial = { version = "=5.5.0", default-features = false }
smallvec = "1"
