[package]
name = "catnip"
version = "0.1.0"
edition = "2021"
publish = false

[dependencies]
rustc_apfloat = "*"
const_soft_float = "*"
simple-soft-float = "*"
url = "*"
serde = { version = "*", features = ["derive"] }
serde_json = "*"
fiberplane-pdk = "=1.0.0-beta.14"
