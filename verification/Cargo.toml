[package]
name = "lastfm_archive"
version = "0.1.0"
edition = "2021"
publish = false

[dependencies]
xmltree = "*"
urlencoding = "*"
chrono = { version = "*", default-features = false, features = ["std"] }
rusqlite = { version = "*", features = ["bundled"] }
hyper = { version = "*", features = ["client", "http1"] }
hyper-tls = "*"
hyper-util = { version = "*", features = ["client-legacy", "http1", "tokio"] }
http-body-util = "*"
bytes = "*"
tokio = { version = "*", features = ["rt-multi-thread", "macros"] }
structopt = "*"
indicatif = "*"
num_cpus = "*"
