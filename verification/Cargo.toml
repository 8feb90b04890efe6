[package]
name = "rsql"
version = "0.1.0"
edition = "2021"
publish = false

[dependencies]
sqlparser = "0.39"
bincode = "1.3"
serde = { version = "1", features = ["derive"] }
color-eyre = "0.6"
linefeed = "0.6"
prettytable-rs = "0.10"
