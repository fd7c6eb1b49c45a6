[package]
name = "divina"
version = "0.1.0"
edition = "2021"
publish = false

[dependencies]
rlua = "=0.20.1"
structopt = "=0.3.26"
git2 = { version = "=0.21.0", default-features = false }
dotenv = "=0.15.0"
human-panic = "*"
