[package]
name = "orangevault"
version = "0.1.0"
edition = "2021"
publish = false

[dependencies]
base64 = "=0.22.1"
uuid = { version = "=1.29.0", features = ["v4"] }
chrono = "=0.4.45"
rand = "=0.8.8"
aes = "=0.8.4"
cbc = { version = "=0.1.2", features = ["alloc"] }
hmac = "=0.12.1"
sha2 = "=0.10.9"
rmpv = "=1.3.1"
serde = { version = "=1.0.229", features = ["derive"] }
serde_json = "=1.0.154"
serde_urlencoded = "=0.7.1"
worker = "=0.8.7"
js-sys = "=0.3.107"
wasm-bindgen = "=0.2.130"
wasm-bindgen-futures = "=0.4.80"
web-sys = { version = "=0.3.107", features = ["Crypto", "SubtleCrypto", "CryptoKey", "CryptoKeyPair"] }
console_error_panic_hook = "=0.1.7"
clap = { version = "=4.6.7", features = ["derive", "env"] }
anyhow = "=1.0.104"
tokio = { version = "=1.54.1", features = ["macros", "rt-multi-thread"] }
rsa = "=0.9.10"
reqwest = { version = "=0.12.28", default-features = false, features = ["json"] }
rbw = "*"
