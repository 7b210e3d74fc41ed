[package]
name = "buttplug_osc"
version = "0.1.0"
edition = "2021"
publish = false

[dependencies]
evmap = "*"
buttplug = "*"
nannou_osc = "*"
structopt = "*"
tokio = { version = "*", features = ["macros", "rt-multi-thread"] }
futures-util = "*"
url = "*"
anyhow = "*"
tracing = "*"
tracing-subscriber = { version = "*", features = ["env-filter"] }
