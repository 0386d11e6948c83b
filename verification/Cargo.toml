[package]
name = "spotify_dl"
version = "0.1.0"
edition = "2021"
publish = false

[dependencies]
anyhow = "=1.0.104"
async-trait = "=0.1.92"
bytes = "=1.12.1"
dirs = "=7.0.0"
lazy_static = "=1.5.1"
librespot = { version = "=0.8.0", default-features = false, features = ["rustls-tls-webpki-roots"] }
regex = "=1.13.1"
structopt = "=0.3.26"
tokio = { version = "=1.54.1", features = ["rt-multi-thread", "macros"] }
tracing = "=0.1.44"
# Held at 9.0.x for the build script of librespot-core: the vergen-gitcl that
# it takes does not compile against vergen 9.1.
vergen = { version = "=9.0.6", default-features = false }
