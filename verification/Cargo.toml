[package]
name = "oo7-daemon"
version = "0.1.0"
edition = "2021"
publish = false

[dependencies]
aes-gcm = "=0.10.3"
clap = { version = "=4.6.7", features = ["derive"] }
hkdf = "=0.12.4"
p256 = { version = "=0.13.2", features = ["ecdh"] }
rand = "=0.8.8"
rpassword = "=7.5.4"
rustix = { version = "=1.1.6", features = ["fs", "net", "process", "thread"] }
sha2 = "=0.10.9"
tokio = { version = "=1.54.1", features = ["fs", "io-util", "macros", "rt-multi-thread", "signal"] }
tracing = "=0.1.44"
tracing-subscriber = "=0.3.23"
yubikey = "=0.7.0"
zbus = { version = "=5.19.0", default-features = false, features = ["tokio"] }
zeroize = "=1.9.1"
