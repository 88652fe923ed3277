[package]
name = "oes"
version = "0.1.0"
edition = "2021"
publish = false

[dependencies]
spin = { version = "0.9", features = ["ticket_mutex"] }
x86_64 = { version = "0.15", default-features = false, features = ["instructions"] }
syn = { version = "2", features = ["full", "extra-traits"] }
quote = "1"
proc-macro2 = "1"
serde = { version = "1", features = ["derive"] }
