[package]
name = "torshare"
version = "0.1.0"
edition = "2021"
publish = false

[dependencies]
rand = "0.8"
structopt = "0.3"
tokio = { version = "1", features = ["macros", "rt-multi-thread", "time"] }
reqwest = { version = "0.11", default-features = false, features = ["socks"] }
warp = { version = "0.3", default-features = false }
async-ctrlc = "1"
futures = "0.3"
futures-lite = "1"
libtor = "*"
tempdir = "0.3"
termion = "1"
pretty_env_logger = "0.4"
