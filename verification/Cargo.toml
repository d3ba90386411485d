[package]
name = "postergen"
version = "0.1.0"
edition = "2021"
publish = false

[dependencies]
tera = { version = "1", default-features = false }
ureq = { version = "2", default-features = false }
base64 = "0.13"
qrcode = { version = "0.12", default-features = false, features = ["svg"] }
url = "2"
usvg = "0.23"
resvg = "0.23"
tiny-skia = "0.6"
tiny_http = "0.12"
threadpool = "1"
clap = { version = "3", features = ["derive"] }
ctrlc = "3"
