[package]
name = "uwinsearch"
version = "0.1.0"
edition = "2021"
publish = false

[dependencies]
select = "=0.6.1"
tantivy = "=0.27.0"
itertools = "=0.15.0"
regex = "=1.13.1"
rayon = "=1.12.0"
reqwest = { version = "=0.11.27", default-features = false, features = ["blocking", "rustls-tls"] }
serenity = "=0.12.5"
tokio = { version = "=1.54.1", features = ["rt-multi-thread", "macros"] }
log = "=0.4.34"
