[package]
name = "aquatic_http"
version = "0.1.0"
edition = "2021"
publish = false

[dependencies]
aquatic_http_protocol = "=0.1.0"
futures-lite = "=1.13.0"
glommio = "=0.9.0"
log = "=0.4.34"
rustls = "=0.20.9"
rustls-pemfile = "=0.2.1"

[dev-dependencies]
rcgen = "0.10"
