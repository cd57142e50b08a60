[package]
name = "webauthn_bridge"
version = "0.1.0"
edition = "2021"
publish = false

[dependencies]
authenticator = { version = "*", default-features = false, features = ["crypto_openssl"] }
base64 = "0.22"
base64urlsafedata = "*"
futures = "0.3"
log = "0.4"
openssl = "0.10"
serde = { version = "1", features = ["derive"] }
serde_cbor_2 = "*"
serde_json = "1"
thiserror = "2"
tokio = { version = "1", features = ["rt-multi-thread", "sync"] }
url = "2"
webauthn-authenticator-rs = "*"
webauthn-rs-proto = "*"
