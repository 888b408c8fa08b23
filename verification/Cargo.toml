[package]
name = "icon_scraper"
version = "0.1.0"
edition = "2021"
publish = false

[dependencies]
regex = "1"
select = "0.6"
serde = { version = "1", features = ["derive"] }
serde_json = "1"
reqwest = "0.12"
tokio = { version = "1", features = ["rt-multi-thread", "macros"] }
futures = "0.3"
once_cell = "1"
