[package]
name = "ocular"
version = "0.1.0"
edition = "2021"
publish = false

[dependencies]
async-trait = "=0.1.92"
bech32 = "=0.12.0"
bip32 = "=0.5.3"
bip39 = "=3.0.0"
cosmos-sdk-proto = "=0.27.0"
cosmrs = { version = "=0.22.0", features = ["rpc", "bip32"] }
dirs = "=7.0.0"
eyre = "=0.6.14"
futures = "=0.3.34"
http = "=1.5.0"
k256 = "=0.13.4"
octocrab = { version = "=0.54.9", default-features = false, features = ["default-client", "follow-redirect", "retry", "rustls", "rustls-ring", "timeout", "tracing", "jwt-rust-crypto"] }
pkcs8 = "=0.10.2"
prost = "=0.13.5"
prost-types = "=0.13.5"
rand = "=0.10.3"
rand_core = { version = "=0.6.4", features = ["getrandom"] }
reqwest = { version = "=0.12.28", default-features = false, features = ["rustls-tls"] }
serde = { version = "=1.0.229", features = ["derive"] }
serde_json = "=1.0.154"
signatory = "=0.27.1"
tendermint-rpc = { version = "=0.40.4", features = ["http-client", "websocket-client"] }
thiserror = "=2.0.21"
toml = "=0.8.23"
tonic = "=0.13.1"
url = "=2.5.8"
uuid = { version = "=1.29.0", features = ["v4"] }
