[package]
name = "wallblend"
version = "0.1.0"
edition = "2021"
publish = false

[dependencies]
anyhow = "=1.0.104"
bytes = "=1.12.1"
crossbeam-channel = "=0.5.17"
futures-util = "=0.3.34"
image = { version = "=0.24.9", default-features = false, features = ["jpeg"] }
jpeg-decoder = { version = "=0.3.2", default-features = false, features = ["platform_independent"] }
num_cpus = "=1.17.0"
reqwest = { version = "=0.11.27", default-features = false, features = ["rustls-tls"] }
scraper = "=0.17.1"
structopt = "=0.3.26"
termion = "=1.5.6"
tokio = { version = "=1.54.1", features = ["rt-multi-thread"] }
tui = { version = "=0.19.0", default-features = false, features = ["termion"] }
unicode-width = "=0.1.14"
