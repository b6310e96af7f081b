[package]
name = "flix"
version = "0.1.0"
edition = "2021"
publish = false

[dependencies]
chrono = "=0.4.45"
clap = { version = "=4.6.7", features = ["derive"] }
color = "=0.3.3"
# slint's own core crate, pinned to slint's version: named only to switch on
# image decoding (`slint::Image::load_from_path`) while slint itself builds
# with default-features = false.
i-slint-core = { version = "=1.18.1", default-features = false, features = ["std", "image-decoders"] }
slint = { version = "=1.18.1", default-features = false, features = ["std", "compat-1-2"] }
toml = "=1.1.7"
