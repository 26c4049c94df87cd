[package]
name = "mdpreview"
version = "0.1.0"
edition = "2021"
publish = false

[dependencies]
pulldown-cmark = "=0.13.4"
async-stream = "=0.3.6"
base64 = "=0.23.1"
clap = { version = "=4.6.7", features = ["derive"] }
futures-util = "=0.3.34"
local-ip-address = "=0.6.13"
notify = "=8.2.0"
tempfile = "=3.27.0"
tokio = { version = "=1.53.2", features = ["rt-multi-thread", "macros", "sync"] }
warp = { version = "=0.4.3", features = ["server"] }
